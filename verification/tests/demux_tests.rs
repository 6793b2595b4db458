use xwire::demux::{decode_error_frame, Classification, Demultiplexer, DemuxError, XError};
use xwire::events::{decode_event, DecodedEvent};
use xwire::protocol::{ErrorCode, EventKind, Opcode};

fn le16(v: u16) -> [u8; 2] {
    [(v & 0xFF) as u8, (v >> 8) as u8]
}

fn le32(v: u32) -> [u8; 4] {
    [
        (v & 0xFF) as u8,
        ((v >> 8) & 0xFF) as u8,
        ((v >> 16) & 0xFF) as u8,
        (v >> 24) as u8,
    ]
}

/// A 32-byte error frame.
fn error_frame(code: u8, sequence: u16, value: u32, minor: u16, major: u8) -> Vec<u8> {
    let mut f: Vec<u8> = vec![0, code];
    f.extend_from_slice(&le16(sequence));
    f.extend_from_slice(&le32(value));
    f.extend_from_slice(&le16(minor));
    f.push(major);
    f.resize(32, 0xAA); // unused trailing bytes, deliberately not zero
    f
}

/// A 32-byte reply frame declaring `extra` further 4-byte units.
fn reply_frame_header(extra: u32) -> Vec<u8> {
    let mut f: Vec<u8> = vec![1, 0, 0, 0];
    f.extend_from_slice(&le32(extra));
    f.resize(32, 0);
    f
}

#[test]
fn id_choice_error_carries_the_bad_resource_id() {
    let frame = error_frame(14, 7, 0xDEAD_BEEF, 3, 1);
    let err = decode_error_frame(&frame).unwrap();
    assert_eq!(
        err,
        XError {
            code: ErrorCode::IDChoice,
            sequence_number: 7,
            value: Some(0xDEAD_BEEF),
            minor_opcode: 3,
            major_opcode: 1,
        }
    );
}

#[test]
fn match_error_skips_its_unused_field() {
    let frame = error_frame(8, 9, 0x1234_5678, 0, 12);
    let err = decode_error_frame(&frame).unwrap();
    assert_eq!(err.code, ErrorCode::Match);
    assert_eq!(err.value, None); // the four bytes are not interpreted
    assert_eq!(err.sequence_number, 9);
    assert_eq!(err.major_opcode, 12);
}

#[test]
fn each_error_code_interprets_the_value_field_per_protocol() {
    for (byte, has_value) in [
        (1u8, false), // Request
        (2, true),    // Value
        (3, true),    // Window
        (8, false),   // Match
        (10, false),  // Access
        (11, false),  // Alloc
        (13, true),   // GContext
        (14, true),   // IDChoice
        (16, false),  // Length
        (17, false),  // Implementation
    ] {
        let frame = error_frame(byte, 1, 42, 0, 0);
        let err = decode_error_frame(&frame).unwrap();
        assert_eq!(err.value.is_some(), has_value, "code byte {byte}");
        if has_value {
            assert_eq!(err.value, Some(42));
        }
    }
}

#[test]
fn unknown_error_code_is_fatal() {
    let frame = error_frame(99, 1, 0, 0, 0);
    assert_eq!(
        decode_error_frame(&frame),
        Err(DemuxError::UnknownErrorCode(99))
    );
}

#[test]
fn classifier_reports_error_frames_without_touching_pending() {
    let mut demux = Demultiplexer::new();
    demux.register(Opcode::GetWindowAttributes);
    let frame = error_frame(14, 1, 5, 0, 1);
    match demux.next_message(&frame).unwrap() {
        Classification::ErrorFrame { error } => {
            assert_eq!(error.code, ErrorCode::IDChoice);
            assert_eq!(error.value, Some(5));
        }
        other => panic!("expected an error frame, got {other:?}"),
    }
    assert_eq!(demux.pending_count(), 1);
}

#[test]
fn classifier_waits_for_the_declared_reply_length() {
    let mut demux = Demultiplexer::new();
    demux.register(Opcode::GetWindowAttributes);
    // a GetWindowAttributes reply declares 3 extra units: 44 bytes total
    let full = {
        let mut f = reply_frame_header(3);
        f.resize(44, 0x55);
        f
    };
    // fewer than 32 bytes: not even a frame header
    assert_eq!(
        demux.next_message(&full[..10]).unwrap(),
        Classification::NeedMore { at_least: 32 }
    );
    // a whole fixed frame, but not yet the declared span
    assert_eq!(
        demux.next_message(&full[..32]).unwrap(),
        Classification::NeedMore { at_least: 44 }
    );
    assert_eq!(
        demux.next_message(&full[..43]).unwrap(),
        Classification::NeedMore { at_least: 44 }
    );
    // nothing was delivered or consumed across the partial reads
    assert_eq!(demux.pending_count(), 1);
    // the full span: delivered, and the oldest expectation is consumed
    assert_eq!(
        demux.next_message(&full).unwrap(),
        Classification::Reply {
            opcode: Opcode::GetWindowAttributes,
            span: 44,
        }
    );
    assert_eq!(demux.pending_count(), 0);
}

#[test]
fn replies_consume_expectations_oldest_first() {
    let mut demux = Demultiplexer::new();
    demux.register(Opcode::ListFonts);
    demux.register(Opcode::QueryExtension);
    let frame = reply_frame_header(0);
    assert_eq!(
        demux.next_message(&frame).unwrap(),
        Classification::Reply { opcode: Opcode::ListFonts, span: 32 }
    );
    assert_eq!(
        demux.next_message(&frame).unwrap(),
        Classification::Reply { opcode: Opcode::QueryExtension, span: 32 }
    );
    assert_eq!(
        demux.next_message(&frame),
        Err(DemuxError::NoPendingReply)
    );
}

#[test]
fn key_press_event_is_classified_and_decoded() {
    let mut frame: Vec<u8> = vec![2, 42]; // KeyPress, keycode 42
    frame.extend_from_slice(&le16(7));
    frame.extend_from_slice(&le32(123456));
    frame.resize(32, 0);
    let mut demux = Demultiplexer::new();
    match demux.next_message(&frame).unwrap() {
        Classification::EventFrame { kind, event } => {
            assert_eq!(kind, EventKind::KeyPress);
            assert_eq!(
                event,
                DecodedEvent::Key {
                    pressed: true,
                    detail: 42,
                    sequence_number: 7,
                    timestamp: 123456,
                }
            );
        }
        other => panic!("expected an event frame, got {other:?}"),
    }
}

#[test]
fn crossing_event_decodes_every_field() {
    let mut frame: Vec<u8> = vec![7, 1]; // EnterNotify
    frame.extend_from_slice(&le16(3)); // sequence
    frame.extend_from_slice(&le32(1000)); // time
    frame.extend_from_slice(&le32(0x10)); // root
    frame.extend_from_slice(&le32(0x20)); // event window
    frame.extend_from_slice(&le32(0x30)); // child
    frame.extend_from_slice(&le16(11)); // root-x
    frame.extend_from_slice(&le16(12)); // root-y
    frame.extend_from_slice(&le16(13)); // event-x
    frame.extend_from_slice(&le16(14)); // event-y
    frame.extend_from_slice(&le16(0x100)); // state
    frame.push(1); // mode
    frame.push(1); // same-screen/focus
    assert_eq!(frame.len(), 32);
    let decoded = decode_event(EventKind::EnterNotify, &frame).unwrap();
    assert_eq!(
        decoded,
        DecodedEvent::Crossing {
            entered: true,
            detail: 1,
            sequence_number: 3,
            timestamp: 1000,
            root_window: 0x10,
            event_window: 0x20,
            child_window: 0x30,
            root_x: 11,
            root_y: 12,
            event_x: 13,
            event_y: 14,
            state: 0x100,
            mode: 1,
            same_screen_focus: 1,
        }
    );
}

#[test]
fn expose_and_mapping_notify_decode() {
    let mut frame: Vec<u8> = vec![12, 0];
    frame.extend_from_slice(&le16(5));
    frame.extend_from_slice(&le32(0x99)); // window
    frame.extend_from_slice(&le16(1)); // x
    frame.extend_from_slice(&le16(2)); // y
    frame.extend_from_slice(&le16(640)); // width
    frame.extend_from_slice(&le16(480)); // height
    frame.resize(32, 0);
    assert_eq!(
        decode_event(EventKind::Expose, &frame).unwrap(),
        DecodedEvent::Expose {
            sequence_number: 5,
            window: 0x99,
            x: 1,
            y: 2,
            width: 640,
            height: 480,
        }
    );

    let mut frame: Vec<u8> = vec![34, 0];
    frame.extend_from_slice(&le16(6));
    frame.push(1); // request: keyboard
    frame.push(8); // first keycode
    frame.push(248); // count
    frame.resize(32, 0);
    assert_eq!(
        decode_event(EventKind::MappingNotify, &frame).unwrap(),
        DecodedEvent::MappingNotify {
            sequence_number: 6,
            request: 1,
            key_code: 8,
            count: 248,
        }
    );
}

#[test]
fn uncovered_subtypes_and_unknown_bytes_are_fatal() {
    let mut demux = Demultiplexer::new();
    let mut frame: Vec<u8> = vec![6, 0]; // MotionNotify: defined, not decoded
    frame.resize(32, 0);
    assert_eq!(
        demux.next_message(&frame),
        Err(DemuxError::UnsupportedEvent(6))
    );
    frame[0] = 25; // inside 2..=34 but not a named subtype
    assert_eq!(
        demux.next_message(&frame),
        Err(DemuxError::UnsupportedEvent(25))
    );
    frame[0] = 200; // no message kind at all
    assert_eq!(
        demux.next_message(&frame),
        Err(DemuxError::UnknownFirstByte(200))
    );
}
