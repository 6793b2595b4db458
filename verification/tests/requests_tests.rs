use xwire::ids::IdGenerator;
use xwire::protocol::{Event, EventMask, StackMode};
use xwire::requests::{
    close_font, configure_window, connection_request_bytes, create_gc, create_window_request,
    destroy_window_request, free_gc, get_window_attributes_request, image_text_8, list_extensions,
    list_fonts, map_window_request, open_font, query_extension, unmap_window_request,
    ConfigureWindowCommands, ValueList,
};
use xwire::wire::{read_u16_le, read_u32_le};

#[test]
fn connection_request_is_the_fixed_twelve_bytes() {
    assert_eq!(
        connection_request_bytes(),
        vec![0x6c, 0, 11, 0, 0, 0, 0, 0, 0, 0, 0, 0]
    );
}

#[test]
fn single_resource_requests_encode_exactly() {
    let mut buf: Vec<u8> = Vec::new();
    destroy_window_request(&mut buf, 0x11223344);
    assert_eq!(buf, vec![4, 0, 2, 0, 0x44, 0x33, 0x22, 0x11]);

    buf.clear();
    get_window_attributes_request(&mut buf, 7);
    assert_eq!(buf, vec![3, 0, 2, 0, 7, 0, 0, 0]);

    buf.clear();
    map_window_request(&mut buf, 7);
    assert_eq!(buf, vec![8, 0, 2, 0, 7, 0, 0, 0]);

    buf.clear();
    unmap_window_request(&mut buf, 7);
    assert_eq!(buf, vec![10, 0, 2, 0, 7, 0, 0, 0]);

    buf.clear();
    free_gc(&mut buf, 9);
    assert_eq!(buf, vec![60, 0, 2, 0, 9, 0, 0, 0]);

    buf.clear();
    close_font(&mut buf, 5);
    assert_eq!(buf, vec![46, 0, 2, 0, 5, 0, 0, 0]);

    buf.clear();
    list_extensions(&mut buf);
    assert_eq!(buf, vec![99, 0, 1, 0]);
}

#[test]
fn list_fonts_pads_its_pattern() {
    let mut buf: Vec<u8> = Vec::new();
    list_fonts(&mut buf, 1000, b"*");
    assert_eq!(buf, vec![49, 0, 3, 0, 0xE8, 0x03, 1, 0, b'*', 0, 0, 0]);
}

#[test]
fn query_extension_pads_its_name() {
    let mut buf: Vec<u8> = Vec::new();
    query_extension(&mut buf, b"SHAPE");
    assert_eq!(
        buf,
        vec![98, 0, 4, 0, 5, 0, 0, 0, b'S', b'H', b'A', b'P', b'E', 0, 0, 0]
    );
}

#[test]
fn open_font_embeds_a_fresh_id() {
    let mut buf: Vec<u8> = Vec::new();
    let mut gen = IdGenerator::new(0x200, 0xFF);
    let fid = open_font(&mut buf, &mut gen, b"fixed");
    assert_eq!(fid, 0x201);
    assert_eq!(
        buf,
        vec![45, 0, 5, 0, 0x01, 0x02, 0, 0, 5, 0, 0, 0, b'f', b'i', b'x', b'e', b'd', 0, 0, 0]
    );
}

#[test]
fn image_text_8_pads_its_text() {
    let mut buf: Vec<u8> = Vec::new();
    image_text_8(&mut buf, 1, 2, 50, 60, b"Hello World");
    let mut expected: Vec<u8> = vec![76, 11, 7, 0, 1, 0, 0, 0, 2, 0, 0, 0, 50, 0, 60, 0];
    expected.extend_from_slice(b"Hello World");
    expected.push(0);
    assert_eq!(buf, expected);
    assert_eq!(buf.len() % 4, 0);
}

#[test]
fn value_list_rejects_out_of_order_and_non_bits() {
    let mut values = ValueList::new();
    assert!(values.add(0x8, 1));
    assert!(!values.add(0x8, 2)); // not above the present bits
    assert!(!values.add(0x4, 3)); // below the present bits
    assert!(!values.add(0x6, 4)); // not a single bit
    assert!(!values.add(0, 5)); // not a bit at all
    assert!(values.add(0x4000, 6));
    assert_eq!(values.mask, 0x4008);
    assert_eq!(values.values, vec![1, 6]);
}

#[test]
fn create_window_encodes_mask_then_values() {
    let mut buf: Vec<u8> = Vec::new();
    let mut gen = IdGenerator::new(0x0020_0000, 0x001F_FFFF);
    let event_mask = EventMask::none()
        .with(Event::KeyPress)
        .with(Event::KeyRelease)
        .with(Event::ButtonPress)
        .with(Event::ButtonRelease)
        .with(Event::EnterWindow)
        .with(Event::LeaveWindow)
        .with(Event::Exposure);
    assert_eq!(event_mask.bits, 0x803F);
    let mut values = ValueList::new();
    assert!(values.add(0x0002, 0x00FF_FFFF)); // background-pixel
    assert!(values.add(0x0800, event_mask.bits)); // event-mask
    let wid = create_window_request(
        &mut buf, &mut gen, 0x99, 0, 200, 200, 100, 100, 4, 0, 0x21, &values,
    );
    assert_eq!(wid, 0x0020_0001);
    assert_eq!(buf.len(), 40);
    assert_eq!(buf[0], 1); // opcode
    assert_eq!(buf[1], 0); // depth
    assert_eq!(read_u16_le(&buf, 2), 10); // 8 + 2 values
    assert_eq!(read_u32_le(&buf, 4), wid);
    assert_eq!(read_u32_le(&buf, 8), 0x99); // parent
    assert_eq!(read_u16_le(&buf, 12), 200); // x
    assert_eq!(read_u16_le(&buf, 14), 200); // y
    assert_eq!(read_u16_le(&buf, 16), 100); // width
    assert_eq!(read_u16_le(&buf, 18), 100); // height
    assert_eq!(read_u16_le(&buf, 20), 4); // border-width
    assert_eq!(read_u16_le(&buf, 22), 0); // class
    assert_eq!(read_u32_le(&buf, 24), 0x21); // visual
    assert_eq!(read_u32_le(&buf, 28), 0x0802); // value-mask
    assert_eq!(read_u32_le(&buf, 32), 0x00FF_FFFF);
    assert_eq!(read_u32_le(&buf, 36), 0x803F);
}

#[test]
fn create_window_round_trips_header_fields() {
    let mut buf: Vec<u8> = Vec::new();
    let mut gen = IdGenerator::new(0x0040_0000, 0x0000_FFFF);
    let values = ValueList::new();
    let wid = create_window_request(
        &mut buf, &mut gen, 0xABCD, 24, -5, -6, 640, 480, 1, 1, 0x4242_4242, &values,
    );
    // re-decode the header fields from the produced bytes
    assert_eq!(buf[0], 1);
    assert_eq!(read_u16_le(&buf, 2), 8);
    assert_eq!(read_u32_le(&buf, 4), wid);
    assert_eq!(read_u32_le(&buf, 8), 0xABCD);
    assert_eq!(read_u32_le(&buf, 24), 0x4242_4242);
}

#[test]
fn create_gc_encodes_mask_then_values() {
    let mut buf: Vec<u8> = Vec::new();
    let mut gen = IdGenerator::new(0x300, 0xFF);
    let mut values = ValueList::new();
    assert!(values.add(0x4, 0xFF00FF00)); // foreground
    assert!(values.add(0x8, 0xFF000000)); // background
    assert!(values.add(0x4000, 0x77)); // font
    let cid = create_gc(&mut buf, &mut gen, 0x55, &values);
    assert_eq!(cid, 0x301);
    let mut expected: Vec<u8> = vec![55, 0, 7, 0, 0x01, 0x03, 0, 0, 0x55, 0, 0, 0];
    expected.extend_from_slice(&[0x0C, 0x40, 0, 0]); // bitmask 0x400C
    expected.extend_from_slice(&[0x00, 0xFF, 0x00, 0xFF]);
    expected.extend_from_slice(&[0x00, 0x00, 0x00, 0xFF]);
    expected.extend_from_slice(&[0x77, 0, 0, 0]);
    assert_eq!(buf, expected);
}

#[test]
fn configure_window_encodes_ascending_commands() {
    let mut buf: Vec<u8> = Vec::new();
    configure_window(
        &mut buf,
        0x42,
        &[
            ConfigureWindowCommands::X(210),
            ConfigureWindowCommands::Y(200),
        ],
    );
    assert_eq!(
        buf,
        vec![12, 0, 5, 0, 0x42, 0, 0, 0, 3, 0, 0, 0, 210, 0, 0, 0, 200, 0, 0, 0]
    );
}

#[test]
fn configure_window_negative_and_stacking() {
    let mut buf: Vec<u8> = Vec::new();
    configure_window(
        &mut buf,
        1,
        &[
            ConfigureWindowCommands::X(-1),
            ConfigureWindowCommands::Sibling(0x77),
            ConfigureWindowCommands::StackMode(StackMode::Below),
        ],
    );
    assert_eq!(buf[..4], [12, 0, 6, 0]);
    assert_eq!(read_u16_le(&buf, 8), 0x0061); // X | Sibling | StackMode
    assert_eq!(buf[12..16], [0xFF, 0xFF, 0, 0]); // -1 as two's complement
    assert_eq!(read_u32_le(&buf, 16), 0x77);
    assert_eq!(buf[20..24], [1, 0, 0, 0]); // Below
}
