//! Decoding of the event frames this client understands. Every event
//! frame is exactly 32 bytes; subtypes without a decode path here are
//! reported to the caller as unsupported rather than misparsed.

use vstd::prelude::*;
use crate::protocol::EventKind;
use crate::wire::read_u16_le;
use crate::wire::read_u32_le;
use crate::wire::read_u8;
use crate::wire::u16_at;
use crate::wire::u32_at;

verus! {

/// The fields surfaced from one decoded event frame.
#[derive(Copy, Clone, Debug, PartialEq, Eq)]
pub enum DecodedEvent {
    /// KeyPress or KeyRelease; `detail` is the keycode.
    Key { pressed: bool, detail: u8, sequence_number: u16, timestamp: u32 },
    /// ButtonPress or ButtonRelease; `detail` is the button.
    Button { pressed: bool, detail: u8, sequence_number: u16, timestamp: u32 },
    /// EnterNotify or LeaveNotify.
    Crossing {
        entered: bool,
        detail: u8,
        sequence_number: u16,
        timestamp: u32,
        root_window: u32,
        event_window: u32,
        child_window: u32,
        root_x: u16,
        root_y: u16,
        event_x: u16,
        event_y: u16,
        state: u16,
        mode: u8,
        same_screen_focus: u8,
    },
    /// The keyboard, modifier, or pointer mapping changed.
    MappingNotify { sequence_number: u16, request: u8, key_code: u8, count: u8 },
    /// A region of a window was invalidated.
    Expose { sequence_number: u16, window: u32, x: u16, y: u16, width: u16, height: u16 },
}

/// What `decode_event` extracts from a 32-byte event frame, or `None`
/// for a subtype it does not cover.
pub open spec fn spec_decode_event(kind: EventKind, s: Seq<u8>) -> Option<DecodedEvent>
    recommends
        s.len() >= 32,
{
    match kind {
        EventKind::KeyPress => Some(
            DecodedEvent::Key {
                pressed: true,
                detail: s[1],
                sequence_number: u16_at(s, 2),
                timestamp: u32_at(s, 4),
            },
        ),
        EventKind::KeyRelease => Some(
            DecodedEvent::Key {
                pressed: false,
                detail: s[1],
                sequence_number: u16_at(s, 2),
                timestamp: u32_at(s, 4),
            },
        ),
        EventKind::ButtonPress => Some(
            DecodedEvent::Button {
                pressed: true,
                detail: s[1],
                sequence_number: u16_at(s, 2),
                timestamp: u32_at(s, 4),
            },
        ),
        EventKind::ButtonRelease => Some(
            DecodedEvent::Button {
                pressed: false,
                detail: s[1],
                sequence_number: u16_at(s, 2),
                timestamp: u32_at(s, 4),
            },
        ),
        EventKind::EnterNotify => Some(spec_crossing(true, s)),
        EventKind::LeaveNotify => Some(spec_crossing(false, s)),
        EventKind::MappingNotify => Some(
            DecodedEvent::MappingNotify {
                sequence_number: u16_at(s, 2),
                request: s[4],
                key_code: s[5],
                count: s[6],
            },
        ),
        EventKind::Expose => Some(
            DecodedEvent::Expose {
                sequence_number: u16_at(s, 2),
                window: u32_at(s, 4),
                x: u16_at(s, 8),
                y: u16_at(s, 10),
                width: u16_at(s, 12),
                height: u16_at(s, 14),
            },
        ),
        _ => None,
    }
}

pub open spec fn spec_crossing(entered: bool, s: Seq<u8>) -> DecodedEvent
    recommends
        s.len() >= 32,
{
    DecodedEvent::Crossing {
        entered,
        detail: s[1],
        sequence_number: u16_at(s, 2),
        timestamp: u32_at(s, 4),
        root_window: u32_at(s, 8),
        event_window: u32_at(s, 12),
        child_window: u32_at(s, 16),
        root_x: u16_at(s, 20),
        root_y: u16_at(s, 22),
        event_x: u16_at(s, 24),
        event_y: u16_at(s, 26),
        state: u16_at(s, 28),
        mode: s[30],
        same_screen_focus: s[31],
    }
}

/// Decodes one 32-byte event frame of the given subtype; all consumed
/// fields sit inside the fixed frame, so alignment is preserved whatever
/// the subtype. `None` marks a subtype with no decode path — the caller
/// must treat it as a fatal not-implemented condition, never misparse.
pub fn decode_event(kind: EventKind, frame: &[u8]) -> (r: Option<DecodedEvent>)
    requires
        frame@.len() >= 32,
    ensures
        r == spec_decode_event(kind, frame@),
{
    match kind {
        EventKind::KeyPress | EventKind::KeyRelease => {
            let pressed = matches!(kind, EventKind::KeyPress);
            Some(
                DecodedEvent::Key {
                    pressed,
                    detail: read_u8(frame, 1),
                    sequence_number: read_u16_le(frame, 2),
                    timestamp: read_u32_le(frame, 4),
                },
            )
        },
        EventKind::ButtonPress | EventKind::ButtonRelease => {
            let pressed = matches!(kind, EventKind::ButtonPress);
            Some(
                DecodedEvent::Button {
                    pressed,
                    detail: read_u8(frame, 1),
                    sequence_number: read_u16_le(frame, 2),
                    timestamp: read_u32_le(frame, 4),
                },
            )
        },
        EventKind::EnterNotify | EventKind::LeaveNotify => {
            let entered = matches!(kind, EventKind::EnterNotify);
            Some(
                DecodedEvent::Crossing {
                    entered,
                    detail: read_u8(frame, 1),
                    sequence_number: read_u16_le(frame, 2),
                    timestamp: read_u32_le(frame, 4),
                    root_window: read_u32_le(frame, 8),
                    event_window: read_u32_le(frame, 12),
                    child_window: read_u32_le(frame, 16),
                    root_x: read_u16_le(frame, 20),
                    root_y: read_u16_le(frame, 22),
                    event_x: read_u16_le(frame, 24),
                    event_y: read_u16_le(frame, 26),
                    state: read_u16_le(frame, 28),
                    mode: read_u8(frame, 30),
                    same_screen_focus: read_u8(frame, 31),
                },
            )
        },
        EventKind::MappingNotify => Some(
            DecodedEvent::MappingNotify {
                sequence_number: read_u16_le(frame, 2),
                request: read_u8(frame, 4),
                key_code: read_u8(frame, 5),
                count: read_u8(frame, 6),
            },
        ),
        EventKind::Expose => Some(
            DecodedEvent::Expose {
                sequence_number: read_u16_le(frame, 2),
                window: read_u32_le(frame, 4),
                x: read_u16_le(frame, 8),
                y: read_u16_le(frame, 10),
                width: read_u16_le(frame, 12),
                height: read_u16_le(frame, 14),
            },
        ),
        _ => None,
    }
}

} // verus!
