use xwire::ids::IdGenerator;

#[test]
fn allocator_with_unit_step() {
    // base/mask pair as a real server hands out.
    let mut gen = IdGenerator::new(0x0020_0000, 0x001F_FFFF);
    assert_eq!(gen.inc, 1);
    assert_eq!(gen.next(), Some(0x0020_0001));
    assert_eq!(gen.next(), Some(0x0020_0002));
    assert_eq!(gen.next(), Some(0x0020_0003));
}

#[test]
fn allocator_step_is_lowest_mask_bit() {
    let mut gen = IdGenerator::new(0x100, 0b1100);
    assert_eq!(gen.inc, 0b100);
    assert_eq!(gen.next(), Some(0x104));
    assert_eq!(gen.next(), Some(0x108));
    assert_eq!(gen.next(), Some(0x10C));
    assert_eq!(gen.next(), None);
}

#[test]
fn allocator_exhausts_exactly_once_and_stays_exhausted() {
    let mut gen = IdGenerator::new(0x10, 0x3);
    assert!(!gen.exhausted());
    assert_eq!(gen.next(), Some(0x11));
    assert_eq!(gen.next(), Some(0x12));
    assert_eq!(gen.next(), Some(0x13));
    assert!(gen.exhausted());
    assert_eq!(gen.next(), None);
    assert_eq!(gen.next(), None);
    assert!(gen.exhausted());
}

#[test]
fn allocator_ids_strictly_increase_and_carry_base() {
    let base = 0x0040_0000;
    let mask = 0x0000_00FF;
    let mut gen = IdGenerator::new(base, mask);
    let mut prev: Option<u32> = None;
    let mut seen: Vec<u32> = Vec::new();
    while let Some(id) = gen.next() {
        assert_eq!(id & base, base);
        if let Some(p) = prev {
            assert!(id > p);
        }
        assert!(!seen.contains(&id));
        seen.push(id);
        prev = Some(id);
    }
    assert_eq!(seen.len(), 255);
}
