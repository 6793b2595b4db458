use xwire::shape::ShapeExtension;

#[test]
fn shape_query_version_bytes() {
    let shape = ShapeExtension::new(129);
    let mut buf: Vec<u8> = Vec::new();
    shape.query_version(&mut buf);
    assert_eq!(buf, vec![129, 0, 1, 0]);
}

#[test]
fn shape_rectangles_bytes() {
    let shape = ShapeExtension::new(129);
    let mut buf: Vec<u8> = Vec::new();
    shape.rectangles(&mut buf, 0x42, 3, 4);
    assert_eq!(
        buf,
        vec![129, 1, 4, 0, 0, 1, 0, 0, 0x42, 0, 0, 0, 3, 0, 4, 0]
    );
    assert_eq!(buf.len(), 4 * 4); // the declared length covers the whole request
}

#[test]
fn shape_mask_bytes_with_and_without_pixmap() {
    let shape = ShapeExtension::new(129);
    let mut buf: Vec<u8> = Vec::new();
    shape.mask(&mut buf, 0x42, 1, 2, Some(0x77));
    assert_eq!(
        buf,
        vec![129, 2, 5, 0, 0, 1, 0, 0, 0x42, 0, 0, 0, 1, 0, 2, 0, 0x77, 0, 0, 0]
    );

    buf.clear();
    shape.mask(&mut buf, 0x42, 1, 2, None);
    assert_eq!(
        buf,
        vec![129, 2, 5, 0, 0, 1, 0, 0, 0x42, 0, 0, 0, 1, 0, 2, 0, 0, 0, 0, 0]
    );
}
