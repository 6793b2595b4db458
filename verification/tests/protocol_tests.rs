use xwire::protocol::{ErrorCode, Event, EventKind, EventMask, Opcode, EVENT_MASK_ALL};

#[test]
fn opcode_bytes_round_trip() {
    for op in [
        Opcode::CreateWindow,
        Opcode::GetWindowAttributes,
        Opcode::DestroyWindow,
        Opcode::ConfigureWindow,
        Opcode::OpenFont,
        Opcode::CloseFont,
        Opcode::ListFonts,
        Opcode::CreateGC,
        Opcode::FreeGC,
        Opcode::ImageText8,
        Opcode::QueryExtension,
        Opcode::ListExtensions,
    ] {
        assert_eq!(Opcode::from_u8(op.code()), Some(op));
    }
    assert_eq!(Opcode::code(Opcode::CreateWindow), 1);
    assert_eq!(Opcode::code(Opcode::ListExtensions), 99);
    assert_eq!(Opcode::from_u8(0), None);
    assert_eq!(Opcode::from_u8(5), None);
    assert_eq!(Opcode::from_u8(255), None);
}

#[test]
fn error_codes_cover_exactly_one_through_seventeen() {
    assert_eq!(ErrorCode::from_u8(0), None);
    for byte in 1u8..=17 {
        assert!(ErrorCode::from_u8(byte).is_some());
    }
    assert_eq!(ErrorCode::from_u8(18), None);
    assert_eq!(ErrorCode::from_u8(8), Some(ErrorCode::Match));
    assert_eq!(ErrorCode::from_u8(14), Some(ErrorCode::IDChoice));
}

#[test]
fn event_kinds_cover_the_defined_subtypes() {
    assert_eq!(EventKind::from_u8(1), None);
    assert_eq!(EventKind::from_u8(2), Some(EventKind::KeyPress));
    assert_eq!(EventKind::from_u8(12), Some(EventKind::Expose));
    assert_eq!(EventKind::from_u8(20), Some(EventKind::MapRequest));
    assert_eq!(EventKind::from_u8(25), None); // inside the range, not named
    assert_eq!(EventKind::from_u8(34), Some(EventKind::MappingNotify));
    assert_eq!(EventKind::from_u8(35), None);
}

#[test]
fn event_mask_accepts_only_defined_bits() {
    assert_eq!(
        EventMask::from_bits(EVENT_MASK_ALL),
        Some(EventMask { bits: EVENT_MASK_ALL })
    );
    assert_eq!(EventMask::from_bits(0), Some(EventMask { bits: 0 }));
    assert_eq!(EventMask::from_bits(0x0200_0000), None);
    assert_eq!(EventMask::from_bits(0xFFFF_FFFF), None);
}

#[test]
fn event_mask_builder_sets_and_reports_bits() {
    let mask = EventMask::none()
        .with(Event::KeyPress)
        .with(Event::Exposure)
        .with(Event::OwnerGrabButton);
    assert_eq!(mask.bits, 0x0100_8001);
    assert!(mask.contains(Event::KeyPress));
    assert!(mask.contains(Event::Exposure));
    assert!(mask.contains(Event::OwnerGrabButton));
    assert!(!mask.contains(Event::KeyRelease));
    assert_eq!(Event::ButtonMotion.bit(), 0x2000);
}
