//! Capture of system-wide keyboard and mouse activity, normalised into one
//! event shape.
//!
//! The crate holds the decisions of an input listener and none of its
//! operating-system calls:
//!
//! - [`listener`]: the once-only start guard and the steps of installing a
//!   hook, with the error that each failed step ends the start with;
//! - [`notification`]: the mapping from a native notification to the event
//!   that is published for it, if any;
//! - [`raw_input`]: the decoding of raw input packets, and what a packet
//!   does to the cursor position;
//! - [`position`]: the cursor position accumulated from relative motion and
//!   kept inside its bounds;
//! - [`event`]: the canonical event.
//!
//! A program around the crate owns one [`ListeningState`] and one
//! [`AccumulatedPosition`] for the life of the process, each behind a lock
//! of its own. It asks the start functions what to do, performs the steps
//! they name, hands every notification and every packet to the crate, and
//! publishes the events that come back.

pub mod event;
pub mod listener;
pub mod notification;
pub mod position;
pub mod raw_input;

pub use event::{DeviceEvent, DeviceEventKind, EventValue, EVENT_NAME};
pub use listener::{
    start_device_listening, start_raw_input, step_finished, CaptureError, InstallStep,
    ListeningState, StartProgress,
};
pub use notification::{normalize, Notification};
pub use position::AccumulatedPosition;
pub use raw_input::{
    announces_raw_input, decode_raw_input, handle_raw_input, hook_processes, DecodeError,
    PointerWidth, RawInput,
};
