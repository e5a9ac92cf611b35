//! Native input notifications and their mapping to device events.

use vstd::prelude::*;
use crate::event::{DeviceEvent, DeviceEventKind, DeviceEventView, EventValueView};

verus! {

/// One notification of the operating system's input hook, as far as this
/// library reads it: which kind it is and, for a button or a key, the name
/// that identifies it.
#[derive(Debug, PartialEq, Eq)]
pub enum Notification {
    /// A mouse button went down.
    ButtonPress(String),
    /// A mouse button went up.
    ButtonRelease(String),
    /// A key went down.
    KeyPress(String),
    /// A key went up.
    KeyRelease(String),
    /// The cursor moved.
    MouseMove,
    /// The wheel turned.
    Wheel,
}

impl Clone for Notification {
    fn clone(&self) -> (copy: Self)
        ensures
            copy == *self,
    {
        match self {
            Notification::ButtonPress(button) => Notification::ButtonPress(button.clone()),
            Notification::ButtonRelease(button) => Notification::ButtonRelease(button.clone()),
            Notification::KeyPress(key) => Notification::KeyPress(key.clone()),
            Notification::KeyRelease(key) => Notification::KeyRelease(key.clone()),
            Notification::MouseMove => Notification::MouseMove,
            Notification::Wheel => Notification::Wheel,
        }
    }
}

/// The mathematical content of a [`Notification`].
pub enum NotificationView {
    ButtonPress(Seq<char>),
    ButtonRelease(Seq<char>),
    KeyPress(Seq<char>),
    KeyRelease(Seq<char>),
    MouseMove,
    Wheel,
}

impl View for Notification {
    type V = NotificationView;

    open spec fn view(&self) -> NotificationView {
        match self {
            Notification::ButtonPress(button) => NotificationView::ButtonPress(button@),
            Notification::ButtonRelease(button) => NotificationView::ButtonRelease(button@),
            Notification::KeyPress(key) => NotificationView::KeyPress(key@),
            Notification::KeyRelease(key) => NotificationView::KeyRelease(key@),
            Notification::MouseMove => NotificationView::MouseMove,
            Notification::Wheel => NotificationView::Wheel,
        }
    }
}

/// The event that a notification is published as, if it is published at all.
///
/// Button and key notifications keep their name and take the matching
/// kind. Cursor motion and wheel notifications are dropped: motion is
/// reported from raw input packets, not from here.
pub open spec fn normalized(notification: NotificationView) -> Option<DeviceEventView> {
    match notification {
        NotificationView::ButtonPress(button) => Some(
            DeviceEventView {
                kind: DeviceEventKind::MousePress,
                value: EventValueView::Identity(button),
            },
        ),
        NotificationView::ButtonRelease(button) => Some(
            DeviceEventView {
                kind: DeviceEventKind::MouseRelease,
                value: EventValueView::Identity(button),
            },
        ),
        NotificationView::KeyPress(key) => Some(
            DeviceEventView {
                kind: DeviceEventKind::KeyboardPress,
                value: EventValueView::Identity(key),
            },
        ),
        NotificationView::KeyRelease(key) => Some(
            DeviceEventView {
                kind: DeviceEventKind::KeyboardRelease,
                value: EventValueView::Identity(key),
            },
        ),
        NotificationView::MouseMove => None,
        NotificationView::Wheel => None,
    }
}

/// Maps a notification to the event to publish, or to `None` where nothing
/// is to be published.
pub fn normalize(notification: Notification) -> (event: Option<DeviceEvent>)
    ensures
        match event {
            Some(e) => normalized(notification@) == Some(e@),
            None => normalized(notification@) is None,
        },
{
    match notification {
        Notification::ButtonPress(button) => Some(DeviceEvent::mouse_press(button)),
        Notification::ButtonRelease(button) => Some(DeviceEvent::mouse_release(button)),
        Notification::KeyPress(key) => Some(DeviceEvent::keyboard_press(key)),
        Notification::KeyRelease(key) => Some(DeviceEvent::keyboard_release(key)),
        Notification::MouseMove => None,
        Notification::Wheel => None,
    }
}

} // verus!
