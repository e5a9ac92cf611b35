//! Decoding of raw input packets and their effect on the cursor position.
//!
//! A packet is the byte buffer that the operating system fills for one raw
//! input notification: a header whose size depends on the pointer width,
//! followed by the device data. Integers are little-endian.

use vstd::prelude::*;
use crate::event::{DeviceEvent, DeviceEventKind, DeviceEventView, EventValueView};
use crate::position::{in_bounds, moved, AccumulatedPosition};

verus! {

/// The window message that announces a raw input packet.
pub const WM_INPUT: u32 = 0x00FF;

/// The device type that a packet header declares for a mouse.
pub const RAW_INPUT_TYPE_MOUSE: u32 = 0;

/// Size in bytes of the mouse data that follows the header.
pub const RAW_MOUSE_SIZE: usize = 24;

/// Offset of the horizontal motion inside the mouse data.
pub const LAST_X_OFFSET: usize = 12;

/// Offset of the vertical motion inside the mouse data.
pub const LAST_Y_OFFSET: usize = 16;

/// The pointer width of the platform that filled a packet. It fixes the size
/// of the packet header, which holds two 32-bit fields and two
/// pointer-sized ones.
#[derive(Debug, Clone, Copy, PartialEq, Eq, Structural)]
pub enum PointerWidth {
    Bits32,
    Bits64,
}

/// What a well-formed packet holds.
#[derive(Debug, Clone, Copy, PartialEq, Eq, Structural)]
pub enum RawInput {
    /// Relative motion of a mouse.
    Mouse { dx: i32, dy: i32 },
    /// Data of any other device.
    Other,
}

/// Why a buffer is not a well-formed packet.
#[derive(Debug, Clone, Copy, PartialEq, Eq, Structural)]
pub enum DecodeError {
    /// The buffer is shorter than the header.
    TruncatedHeader,
    /// The header declares a mouse, and the buffer ends before the mouse
    /// data does.
    TruncatedPayload,
}

/// Size in bytes of the packet header for a pointer width.
pub open spec fn header_size(width: PointerWidth) -> int {
    match width {
        PointerWidth::Bits32 => 16,
        PointerWidth::Bits64 => 24,
    }
}

/// The unsigned 32-bit integer stored little-endian at `bytes[at..at + 4]`.
pub open spec fn le_u32(bytes: Seq<u8>, at: int) -> int {
    bytes[at] + 0x100 * bytes[at + 1] + 0x1_0000 * bytes[at + 2] + 0x100_0000 * bytes[at + 3]
}

/// The signed 32-bit integer stored little-endian, in two's complement, at
/// `bytes[at..at + 4]`.
pub open spec fn le_i32(bytes: Seq<u8>, at: int) -> int {
    let unsigned = le_u32(bytes, at);
    if unsigned < 0x8000_0000 {
        unsigned
    } else {
        unsigned - 0x1_0000_0000
    }
}

/// The content of the packet `bytes`, or the reason why it has none.
pub open spec fn decoded(bytes: Seq<u8>, width: PointerWidth) -> Result<RawInput, DecodeError> {
    let header = header_size(width);
    if bytes.len() < header {
        Err(DecodeError::TruncatedHeader)
    } else if le_u32(bytes, 0) != RAW_INPUT_TYPE_MOUSE {
        Ok(RawInput::Other)
    } else if bytes.len() < header + RAW_MOUSE_SIZE {
        Err(DecodeError::TruncatedPayload)
    } else {
        Ok(
            RawInput::Mouse {
                dx: le_i32(bytes, header + LAST_X_OFFSET) as i32,
                dy: le_i32(bytes, header + LAST_Y_OFFSET) as i32,
            },
        )
    }
}

/// The motion of a decoded mouse packet is the pair of integers stored in
/// it: both fit their fields, so nothing is cut off.
pub proof fn lemma_decoded_motion(bytes: Seq<u8>, width: PointerWidth)
    requires
        decoded(bytes, width) is Ok,
        decoded(bytes, width)->Ok_0 is Mouse,
    ensures
        decoded(bytes, width)->Ok_0->dx == le_i32(bytes, header_size(width) + LAST_X_OFFSET),
        decoded(bytes, width)->Ok_0->dy == le_i32(bytes, header_size(width) + LAST_Y_OFFSET),
{
}

/// The event that reports the cursor at `p`.
pub open spec fn move_event(p: (int, int)) -> DeviceEventView {
    DeviceEventView {
        kind: DeviceEventKind::MouseMove,
        value: EventValueView::Coordinates { x: p.0, y: p.1 },
    }
}

impl PointerWidth {
    /// The pointer width whose packet header has `size` bytes, if there is
    /// one.
    pub fn from_header_size(size: usize) -> (width: Option<PointerWidth>)
        ensures
            match width {
                Some(w) => header_size(w) == size,
                None => size != 16 && size != 24,
            },
    {
        if size == 16 {
            Some(PointerWidth::Bits32)
        } else if size == 24 {
            Some(PointerWidth::Bits64)
        } else {
            None
        }
    }

    /// Size in bytes of the packet header.
    pub fn header_size(&self) -> (size: usize)
        ensures
            size == header_size(*self),
    {
        match self {
            PointerWidth::Bits32 => 16,
            PointerWidth::Bits64 => 24,
        }
    }
}

fn read_u32_le(buffer: &[u8], at: usize) -> (value: u32)
    requires
        at + 4 <= buffer@.len(),
    ensures
        value == le_u32(buffer@, at as int),
{
    let b0: u32 = buffer[at] as u32;
    let b1: u32 = buffer[at + 1] as u32;
    let b2: u32 = buffer[at + 2] as u32;
    let b3: u32 = buffer[at + 3] as u32;
    b0 + 0x100 * b1 + 0x1_0000 * b2 + 0x100_0000 * b3
}

fn read_i32_le(buffer: &[u8], at: usize) -> (value: i32)
    requires
        at + 4 <= buffer@.len(),
    ensures
        value == le_i32(buffer@, at as int),
{
    let unsigned: u32 = read_u32_le(buffer, at);
    if unsigned < 0x8000_0000 {
        unsigned as i32
    } else {
        (unsigned as i64 - 0x1_0000_0000) as i32
    }
}

/// Whether the message hook is to process the call that came with `code`.
/// A call with a negative code is passed on to the next hook unread.
pub fn hook_processes(code: i32) -> (processes: bool)
    ensures
        processes == (code >= 0),
{
    code >= 0
}

/// Whether `message` is the window message that announces a raw input
/// packet.
pub fn announces_raw_input(message: u32) -> (announced: bool)
    ensures
        announced == (message == WM_INPUT),
{
    message == WM_INPUT
}

/// Decodes one raw input packet.
///
/// A buffer shorter than the header, or one that declares a mouse and is
/// too short to hold its data, is refused. A packet of another device
/// decodes to [`RawInput::Other`] whatever follows its header.
pub fn decode_raw_input(buffer: &[u8], width: PointerWidth) -> (result: Result<
    RawInput,
    DecodeError,
>)
    ensures
        result == decoded(buffer@, width),
{
    let header: usize = width.header_size();
    if buffer.len() < header {
        return Err(DecodeError::TruncatedHeader);
    }
    if read_u32_le(buffer, 0) != RAW_INPUT_TYPE_MOUSE {
        return Ok(RawInput::Other);
    }
    if buffer.len() - header < RAW_MOUSE_SIZE {
        return Err(DecodeError::TruncatedPayload);
    }
    let dx: i32 = read_i32_le(buffer, header + LAST_X_OFFSET);
    let dy: i32 = read_i32_le(buffer, header + LAST_Y_OFFSET);
    Ok(RawInput::Mouse { dx, dy })
}

/// Handles one raw input packet: a mouse packet moves `position` by its
/// deltas, clamped to the tracked area, and yields the move event for the
/// position reached. Any other buffer, malformed ones included, leaves the
/// position as it is and yields no event.
pub fn handle_raw_input(
    buffer: &[u8],
    width: PointerWidth,
    position: &mut AccumulatedPosition,
) -> (event: Option<DeviceEvent>)
    ensures
        match decoded(buffer@, width) {
            Ok(RawInput::Mouse { dx, dy }) => {
                &&& final(position)@ == moved(old(position)@, dx as int, dy as int)
                &&& event matches Some(e) && e@ == move_event(final(position)@)
            },
            _ => *final(position) == *old(position) && event is None,
        },
        in_bounds(final(position)@),
{
    proof {
        use_type_invariant(&*position);
    }
    match decode_raw_input(buffer, width) {
        Ok(RawInput::Mouse { dx, dy }) => {
            position.apply_delta(dx, dy);
            Some(DeviceEvent::mouse_move(position.x(), position.y()))
        },
        _ => None,
    }
}

} // verus!
