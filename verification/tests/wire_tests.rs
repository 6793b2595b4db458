use xwire::wire::{copy_range, pad, put_i16_le, put_u16_le, put_u32_le, put_u8, put_zeros, read_u16_le, read_u32_le, read_u8};

#[test]
fn pad_rounds_up_to_four() {
    assert_eq!(pad(0), 0);
    assert_eq!(pad(1), 3);
    assert_eq!(pad(2), 2);
    assert_eq!(pad(3), 1);
    assert_eq!(pad(4), 0);
    assert_eq!(pad(5), 3);
    assert_eq!(pad(11), 1);
    assert_eq!(pad(65535), 1);
}

#[test]
fn pad_alignment_property_samples() {
    for n in 0usize..64 {
        let p = pad(n);
        assert_eq!((n + p) % 4, 0);
        assert!(p < 4);
    }
}

#[test]
fn little_endian_round_trips() {
    let mut buf: Vec<u8> = Vec::new();
    put_u16_le(&mut buf, 0xBEEF);
    put_u32_le(&mut buf, 0x12345678);
    put_i16_le(&mut buf, -2);
    put_u8(&mut buf, 7);
    assert_eq!(buf, vec![0xEF, 0xBE, 0x78, 0x56, 0x34, 0x12, 0xFE, 0xFF, 7]);
    assert_eq!(read_u16_le(&buf, 0), 0xBEEF);
    assert_eq!(read_u32_le(&buf, 2), 0x12345678);
    assert_eq!(read_u16_le(&buf, 6), 0xFFFE);
    assert_eq!(read_u8(&buf, 8), 7);
}

#[test]
fn zeros_and_copy_range() {
    let mut buf: Vec<u8> = vec![1, 2, 3];
    put_zeros(&mut buf, 3);
    assert_eq!(buf, vec![1, 2, 3, 0, 0, 0]);
    assert_eq!(copy_range(&buf, 1, 3), vec![2, 3, 0]);
    assert_eq!(copy_range(&buf, 0, 0), Vec::<u8>::new());
}
