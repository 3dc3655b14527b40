use n64_boot::n64header::{bytes_to_reend_word, get_endian, read_words, reend_array, Endian, RomError};

fn canonical() -> Vec<u8> {
    let mut v = vec![0x80, 0x37, 0x12, 0x40];
    v.extend_from_slice(&[0x00, 0x00, 0x00, 0x0F, 0x80, 0x24, 0x60, 0x00, 0xDE, 0xAD, 0xBE, 0xEF]);
    v
}

fn stored_bad(c: &[u8]) -> Vec<u8> {
    c.chunks(4).flat_map(|w| [w[3], w[2], w[1], w[0]]).collect()
}

fn stored_ugly(c: &[u8]) -> Vec<u8> {
    c.chunks(2).flat_map(|h| [h[1], h[0]]).collect()
}

#[test]
fn detects_each_magic() {
    assert_eq!(get_endian(&[0x80, 0x37, 0x12, 0x40]), Ok(Endian::Good));
    assert_eq!(get_endian(&[0x40, 0x12, 0x37, 0x80, 0xFF]), Ok(Endian::Bad));
    assert_eq!(get_endian(&[0x37, 0x80, 0x40, 0x12]), Ok(Endian::Ugly));
}

#[test]
fn unknown_magic_is_refused() {
    assert_eq!(get_endian(&[0x12, 0x34, 0x56, 0x78]), Err(RomError::UnrecognizedFormat));
}

#[test]
fn short_input_is_truncated() {
    assert_eq!(get_endian(&[0x80, 0x37, 0x12]), Err(RomError::Truncated));
}

#[test]
fn normalization_is_self_consistent() {
    let c = canonical();
    for stored in [c.clone(), stored_bad(&c), stored_ugly(&c)] {
        let mut buf = stored.clone();
        let e = get_endian(&buf).unwrap();
        reend_array(&mut buf, &e);
        assert_eq!(buf, c);
    }
}

#[test]
fn reend_word_reversed() {
    let mut v = vec![1, 2, 3, 4, 5, 6, 7, 8];
    reend_array(&mut v, &Endian::Bad);
    assert_eq!(v, vec![4, 3, 2, 1, 8, 7, 6, 5]);
}

#[test]
fn reend_halves_swapped() {
    let mut v = vec![1, 2, 3, 4, 5, 6, 7, 8];
    reend_array(&mut v, &Endian::Ugly);
    assert_eq!(v, vec![2, 1, 4, 3, 6, 5, 8, 7]);
}

#[test]
fn reend_native_untouched() {
    let mut v = vec![1, 2, 3, 4];
    reend_array(&mut v, &Endian::Good);
    assert_eq!(v, vec![1, 2, 3, 4]);
    let mut empty: Vec<u8> = vec![];
    reend_array(&mut empty, &Endian::Bad);
    assert!(empty.is_empty());
}

#[test]
fn words_in_each_order() {
    assert_eq!(bytes_to_reend_word(&[0x3C, 0x08, 0x80, 0x04], &Endian::Good), 0x3C088004);
    assert_eq!(bytes_to_reend_word(&[0x04, 0x80, 0x08, 0x3C], &Endian::Bad), 0x3C088004);
    assert_eq!(bytes_to_reend_word(&[0x08, 0x3C, 0x04, 0x80], &Endian::Ugly), 0x3C088004);
}

#[test]
fn read_words_drops_partial_word() {
    let data = [0x3C, 0x08, 0x80, 0x04, 0x25, 0x08, 0xE9, 0x40, 0xAA];
    assert_eq!(read_words(&data, &Endian::Good), vec![0x3C088004, 0x2508E940]);
}
