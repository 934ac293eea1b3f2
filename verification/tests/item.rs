use field_index::item::{BinaryItem, HAS_FALSE, HAS_TRUE};

#[test]
fn flags_have_their_bits() {
    assert_eq!(HAS_TRUE, 0b01);
    assert_eq!(HAS_FALSE, 0b10);
    assert_eq!(BinaryItem::empty().bits(), 0);
    assert_eq!(BinaryItem::from_bools(true, false).bits(), 1);
    assert_eq!(BinaryItem::from_bools(false, true).bits(), 2);
    assert_eq!(BinaryItem::from_bools(true, true).bits(), 3);
    assert_eq!(BinaryItem::from_bools(false, false).bits(), 0);
}

#[test]
fn from_bits_truncate_drops_unknown_bits() {
    assert_eq!(BinaryItem::from_bits_truncate(0xff).bits(), 3);
    assert_eq!(BinaryItem::from_bits_truncate(0xfc).bits(), 0);
    assert_eq!(BinaryItem::from_bits_truncate(0x05).bits(), 1);
    assert_eq!(BinaryItem::from_bits_truncate(0x82).bits(), 2);
    assert!(BinaryItem::from_bits_truncate(4).is_empty());
    for byte in 0..=255u8 {
        let item = BinaryItem::from_bits_truncate(byte);
        assert_eq!(item.bits(), byte & 3);
        assert_eq!(item.has_true(), byte & 1 != 0);
        assert_eq!(item.has_false(), byte & 2 != 0);
    }
}

#[test]
fn item_answers_for_its_flags() {
    let both = BinaryItem::from_bools(true, true);
    let only_true = BinaryItem::from_bools(true, false);
    let only_false = BinaryItem::from_bools(false, true);
    let none = BinaryItem::empty();

    assert!(both.has_true() && both.has_false());
    assert!(only_true.has_true() && !only_true.has_false());
    assert!(!only_false.has_true() && only_false.has_false());
    assert!(none.is_empty() && !both.is_empty() && !only_true.is_empty());

    assert_eq!(both.count(), 2);
    assert_eq!(only_true.count(), 1);
    assert_eq!(only_false.count(), 1);
    assert_eq!(none.count(), 0);
}
