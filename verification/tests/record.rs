use field_index::record::{decode_key, encode_key, keys_fit, offset_fits};

#[test]
fn keys_are_big_endian() {
    assert_eq!(encode_key(0), vec![0, 0, 0, 0]);
    assert_eq!(encode_key(1), vec![0, 0, 0, 1]);
    assert_eq!(encode_key(0x0102_0304), vec![1, 2, 3, 4]);
    assert_eq!(encode_key(u32::MAX), vec![255, 255, 255, 255]);
    assert_eq!(encode_key(0xdead_beef), 0xdead_beefu32.to_be_bytes().to_vec());
}

#[test]
fn keys_decode_to_their_offsets() {
    assert_eq!(decode_key(&vec![0, 0, 0, 0]), 0);
    assert_eq!(decode_key(&vec![0, 0, 1, 0]), 256);
    assert_eq!(decode_key(&vec![1, 2, 3, 4]), 0x0102_0304);
    assert_eq!(decode_key(&vec![255, 255, 255, 255]), u32::MAX);
    for id in [0u32, 7, 255, 256, 65_535, 65_536, 16_777_215, 16_777_216, 4_000_000_000] {
        assert_eq!(decode_key(&encode_key(id)), id);
        assert_eq!(decode_key(&id.to_be_bytes().to_vec()), id);
    }
}

#[test]
fn keys_sort_as_their_offsets_do() {
    let ids = [0u32, 1, 255, 256, 257, 65_536, 1 << 24, u32::MAX];
    for pair in ids.windows(2) {
        assert!(encode_key(pair[0]) < encode_key(pair[1]));
    }
}

#[test]
fn offsets_fit_a_memory() {
    assert!(offset_fits(0));
    assert!(offset_fits(1000));
    assert_eq!(offset_fits(u32::MAX), (u32::MAX as usize) < usize::MAX / 8);
}

#[test]
fn rows_are_checked_before_they_are_loaded() {
    assert!(keys_fit(&vec![]));
    assert!(keys_fit(&vec![(vec![0, 0, 0, 1], vec![1]), (vec![9, 9, 9, 9], vec![])]));
    assert!(!keys_fit(&vec![(vec![0, 0, 1], vec![1])]));
    assert!(!keys_fit(&vec![(vec![0, 0, 0, 1], vec![1]), (vec![0, 0, 0, 0, 1], vec![1])]));
    assert!(!keys_fit(&vec![(vec![], vec![1])]));
}
