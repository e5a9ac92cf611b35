//! The canonical event that every captured notification is turned into.

use vstd::prelude::*;

verus! {

/// The name under which every event is published.
pub const EVENT_NAME: &'static str = "device-changed";

/// What happened on the device.
#[derive(Debug, Clone, Copy, PartialEq, Eq, Structural)]
pub enum DeviceEventKind {
    MousePress,
    MouseRelease,
    MouseMove,
    KeyboardPress,
    KeyboardRelease,
}

/// The payload of an event: the identity of a button or key, or the
/// coordinates of the cursor.
#[derive(Debug, PartialEq, Eq)]
pub enum EventValue {
    Identity(String),
    Coordinates { x: i32, y: i32 },
}

impl Clone for EventValue {
    fn clone(&self) -> (copy: Self)
        ensures
            copy == *self,
    {
        match self {
            EventValue::Identity(name) => EventValue::Identity(name.clone()),
            EventValue::Coordinates { x, y } => EventValue::Coordinates { x: *x, y: *y },
        }
    }
}

/// The mathematical content of an [`EventValue`].
pub enum EventValueView {
    Identity(Seq<char>),
    Coordinates { x: int, y: int },
}

impl View for EventValue {
    type V = EventValueView;

    open spec fn view(&self) -> EventValueView {
        match self {
            EventValue::Identity(name) => EventValueView::Identity(name@),
            EventValue::Coordinates { x, y } => EventValueView::Coordinates {
                x: *x as int,
                y: *y as int,
            },
        }
    }
}

/// The mathematical content of a [`DeviceEvent`].
pub struct DeviceEventView {
    pub kind: DeviceEventKind,
    pub value: EventValueView,
}

impl DeviceEventView {
    /// Whether the payload has the shape that the kind calls for: coordinates
    /// for a move, an identity for a press or a release.
    pub open spec fn well_formed(self) -> bool {
        self.kind == DeviceEventKind::MouseMove <==> self.value is Coordinates
    }
}

/// One captured input event.
///
/// The payload always has the shape that the kind calls for, so an event can
/// only be made through the constructors below.
#[derive(Debug, PartialEq, Eq)]
pub struct DeviceEvent {
    kind: DeviceEventKind,
    value: EventValue,
}

impl Clone for DeviceEvent {
    fn clone(&self) -> (copy: Self)
        ensures
            copy == *self,
    {
        proof {
            use_type_invariant(self);
        }
        DeviceEvent { kind: self.kind, value: self.value.clone() }
    }
}

impl View for DeviceEvent {
    type V = DeviceEventView;

    closed spec fn view(&self) -> DeviceEventView {
        DeviceEventView { kind: self.kind, value: self.value@ }
    }
}

impl DeviceEvent {
    /// Holds of every event at all times: its payload has the shape that
    /// its kind calls for.
    #[verifier::type_invariant]
    pub open spec fn shape_matches_kind(self) -> bool {
        self@.well_formed()
    }

    /// The event of kind `kind` for the button or key called `name`.
    fn identified(kind: DeviceEventKind, name: String) -> (event: Self)
        requires
            kind != DeviceEventKind::MouseMove,
        ensures
            event@ == (DeviceEventView { kind, value: EventValueView::Identity(name@) }),
    {
        DeviceEvent { kind, value: EventValue::Identity(name) }
    }

    /// The event for the mouse button `button` going down.
    pub fn mouse_press(button: String) -> (event: Self)
        ensures
            event@ == (DeviceEventView {
                kind: DeviceEventKind::MousePress,
                value: EventValueView::Identity(button@),
            }),
    {
        Self::identified(DeviceEventKind::MousePress, button)
    }

    /// The event for the mouse button `button` going up.
    pub fn mouse_release(button: String) -> (event: Self)
        ensures
            event@ == (DeviceEventView {
                kind: DeviceEventKind::MouseRelease,
                value: EventValueView::Identity(button@),
            }),
    {
        Self::identified(DeviceEventKind::MouseRelease, button)
    }

    /// The event for the key `key` going down.
    pub fn keyboard_press(key: String) -> (event: Self)
        ensures
            event@ == (DeviceEventView {
                kind: DeviceEventKind::KeyboardPress,
                value: EventValueView::Identity(key@),
            }),
    {
        Self::identified(DeviceEventKind::KeyboardPress, key)
    }

    /// The event for the key `key` going up.
    pub fn keyboard_release(key: String) -> (event: Self)
        ensures
            event@ == (DeviceEventView {
                kind: DeviceEventKind::KeyboardRelease,
                value: EventValueView::Identity(key@),
            }),
    {
        Self::identified(DeviceEventKind::KeyboardRelease, key)
    }

    /// The event of kind `kind` with the payload `value`, if the payload
    /// has the shape that the kind calls for.
    pub fn new(kind: DeviceEventKind, value: EventValue) -> (event: Option<Self>)
        ensures
            event is Some <==> (DeviceEventView { kind, value: value@ }).well_formed(),
            event matches Some(e) ==> e@ == (DeviceEventView { kind, value: value@ }),
    {
        let is_move: bool = match kind {
            DeviceEventKind::MouseMove => true,
            _ => false,
        };
        let has_coordinates: bool = match value {
            EventValue::Coordinates { .. } => true,
            EventValue::Identity(_) => false,
        };
        if is_move == has_coordinates {
            Some(DeviceEvent { kind, value })
        } else {
            None
        }
    }

    /// What happened.
    pub fn kind(&self) -> (kind: DeviceEventKind)
        ensures
            kind == self@.kind,
    {
        self.kind
    }

    /// The payload: coordinates for a move, an identity for a press or a
    /// release.
    pub fn value(&self) -> (value: &EventValue)
        ensures
            value@ == self@.value,
            self@.well_formed(),
    {
        proof {
            use_type_invariant(self);
        }
        &self.value
    }

    /// The event for a cursor that is now at `(x, y)`.
    pub fn mouse_move(x: i32, y: i32) -> (event: Self)
        ensures
            event@ == (DeviceEventView {
                kind: DeviceEventKind::MouseMove,
                value: EventValueView::Coordinates { x: x as int, y: y as int },
            }),
    {
        DeviceEvent { kind: DeviceEventKind::MouseMove, value: EventValue::Coordinates { x, y } }
    }
}

} // verus!
