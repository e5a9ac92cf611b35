use input_capture::event::{DeviceEvent, DeviceEventKind, EventValue};
use input_capture::notification::{normalize, Notification};

#[test]
fn left_button_press_becomes_a_mouse_press() {
    let event = normalize(Notification::ButtonPress("Left".to_string())).unwrap();
    assert_eq!(event.kind(), DeviceEventKind::MousePress);
    assert_eq!(event.value(), &EventValue::Identity("Left".to_string()));
    assert_eq!(event, DeviceEvent::mouse_press("Left".to_string()));
}

#[test]
fn left_button_release_becomes_a_mouse_release_with_the_same_value() {
    let press = normalize(Notification::ButtonPress("Left".to_string())).unwrap();
    let release = normalize(Notification::ButtonRelease("Left".to_string())).unwrap();
    assert_eq!(release.kind(), DeviceEventKind::MouseRelease);
    assert_eq!(release.value(), &EventValue::Identity("Left".to_string()));
    assert_eq!(release.value(), press.value());
    assert_eq!(release, DeviceEvent::mouse_release("Left".to_string()));
}

#[test]
fn key_down_becomes_a_keyboard_press() {
    let event = normalize(Notification::KeyPress("A".to_string())).unwrap();
    assert_eq!(event.kind(), DeviceEventKind::KeyboardPress);
    assert_eq!(event.value(), &EventValue::Identity("A".to_string()));
    assert_eq!(event, DeviceEvent::keyboard_press("A".to_string()));
}

#[test]
fn key_up_becomes_a_keyboard_release() {
    let event = normalize(Notification::KeyRelease("A".to_string())).unwrap();
    assert_eq!(event.kind(), DeviceEventKind::KeyboardRelease);
    assert_eq!(event.value(), &EventValue::Identity("A".to_string()));
    assert_eq!(event, DeviceEvent::keyboard_release("A".to_string()));
}

#[test]
fn names_are_kept_as_they_come() {
    for name in ["", "Unknown(7)", "KeyA", "ControlLeft", "é ü", "Left\n"] {
        assert_eq!(
            normalize(Notification::ButtonPress(name.to_string())),
            Some(DeviceEvent::mouse_press(name.to_string()))
        );
        assert_eq!(
            normalize(Notification::KeyRelease(name.to_string())),
            Some(DeviceEvent::keyboard_release(name.to_string()))
        );
    }
}

#[test]
fn cursor_motion_produces_no_event() {
    assert_eq!(normalize(Notification::MouseMove), None);
}

#[test]
fn wheel_produces_no_event() {
    assert_eq!(normalize(Notification::Wheel), None);
}

#[test]
fn button_and_key_of_one_name_differ_in_kind() {
    let button = normalize(Notification::ButtonPress("X".to_string())).unwrap();
    let key = normalize(Notification::KeyPress("X".to_string())).unwrap();
    assert_ne!(button, key);
    assert_eq!(button.value(), key.value());
}

#[test]
fn a_cloned_notification_normalizes_alike() {
    let notification = Notification::KeyPress("ShiftLeft".to_string());
    let copy = notification.clone();
    assert_eq!(copy, notification);
    assert_eq!(normalize(copy), normalize(notification));
}
