use xwire::replies::{
    parse_extension_names, parse_font_names, QueryExtensionReply, ReplyError,
    WindowAttributesReply,
};

fn le16(v: u16) -> [u8; 2] {
    [(v & 0xFF) as u8, (v >> 8) as u8]
}

fn le32(v: u32) -> [u8; 4] {
    [
        (v & 0xFF) as u8,
        ((v >> 8) & 0xFF) as u8,
        ((v >> 16) & 0xFF) as u8,
        (v >> 24) as u8,
    ]
}

#[test]
fn window_attributes_reply_fields() {
    let mut frame: Vec<u8> = vec![1, 2]; // reply, backing-store 2
    frame.extend_from_slice(&le16(17));
    frame.extend_from_slice(&le32(3));
    frame.resize(44, 0);
    let reply = WindowAttributesReply::from_bytes(&frame);
    assert_eq!(reply.backing_store, 2);
    assert_eq!(reply.sequence_number, 17);
    assert_eq!(reply.reply_length, 3);
}

#[test]
fn query_extension_reply_fields() {
    let mut frame: Vec<u8> = vec![1, 0];
    frame.extend_from_slice(&le16(4));
    frame.extend_from_slice(&le32(0));
    frame.push(1); // present
    frame.push(129); // major opcode
    frame.push(64); // first event
    frame.push(0); // first error
    frame.resize(32, 0);
    let reply = QueryExtensionReply::from_bytes(&frame);
    assert_eq!(reply.sequence_number, 4);
    assert!(reply.present);
    assert_eq!(reply.major_opcode, 129);
    assert_eq!(reply.first_event, 64);
    assert_eq!(reply.first_error, 0);

    frame[8] = 0;
    let reply = QueryExtensionReply::from_bytes(&frame);
    assert!(!reply.present);
}

#[test]
fn font_names_parse_in_order() {
    let mut frame: Vec<u8> = vec![1, 0];
    frame.extend_from_slice(&le16(2));
    frame.extend_from_slice(&le32(3)); // extended units, not checked here
    frame.extend_from_slice(&le16(2)); // number of names
    frame.resize(32, 0);
    frame.push(5);
    frame.extend_from_slice(b"fixed");
    frame.push(6);
    frame.extend_from_slice(b"cursor");
    let (names, end) = parse_font_names(&frame).unwrap();
    assert_eq!(names, vec![b"fixed".to_vec(), b"cursor".to_vec()]);
    assert_eq!(end, frame.len());
}

#[test]
fn extension_names_parse_in_order() {
    let mut frame: Vec<u8> = vec![1, 2]; // 2 names
    frame.extend_from_slice(&le16(1));
    frame.extend_from_slice(&le32(4));
    frame.resize(32, 0);
    frame.push(5);
    frame.extend_from_slice(b"SHAPE");
    frame.push(9);
    frame.extend_from_slice(b"RENDERING");
    let (names, end) = parse_extension_names(&frame).unwrap();
    assert_eq!(names, vec![b"SHAPE".to_vec(), b"RENDERING".to_vec()]);
    assert_eq!(end, frame.len());
}

#[test]
fn truncated_name_lists_are_rejected() {
    let mut frame: Vec<u8> = vec![1, 2]; // claims 2 names
    frame.extend_from_slice(&le16(1));
    frame.extend_from_slice(&le32(1));
    frame.resize(32, 0);
    frame.push(5);
    frame.extend_from_slice(b"SHAPE"); // second name missing
    assert_eq!(parse_extension_names(&frame), Err(ReplyError::Truncated));

    let mut frame: Vec<u8> = vec![1, 1];
    frame.extend_from_slice(&le16(1));
    frame.extend_from_slice(&le32(1));
    frame.resize(32, 0);
    frame.push(10); // length runs past the end
    frame.extend_from_slice(b"SHAPE");
    assert_eq!(parse_extension_names(&frame), Err(ReplyError::Truncated));
}
