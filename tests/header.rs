use n64_boot::n64header::{read_header, RomError};

fn header_bytes() -> Vec<u8> {
    let mut b = vec![0x80, 0x37, 0x12, 0x40];
    b.extend([0x00, 0x00, 0x00, 0x0F]);
    b.extend([0x80, 0x24, 0x60, 0x00]);
    b.extend([0x00, 0x00, 0x14, 0x44]);
    b.extend([0x63, 0x5A, 0x2B, 0xFF]);
    b.extend([0x8B, 0x02, 0x23, 0x26]);
    b.extend([1, 2, 3, 4, 5, 6, 7, 8]);
    b.extend(b"SUPER MARIO 64      ");
    b.extend([9, 10, 11, 12]);
    b.extend([0x00, 0x00, 0x00, b'N']);
    b.extend(b"SM");
    b.push(b'E');
    b.push(0x00);
    b
}

#[test]
fn header_fields() {
    let h = read_header(&header_bytes()).unwrap();
    assert_eq!(h.entrypoint(), 0x80246000);
    assert_eq!(h.clock_rate, 0x0F);
    assert_eq!(h.checksum(), (0x635A2BFF, 0x8B022326));
    assert_eq!(h.libultra_version(), Some('D'));
    assert_eq!(h.media_format(), Some('N'));
    assert_eq!(h.cartridge_id(), "SM");
    assert_eq!(h.country_code(), 'E');
    assert_eq!(h.version, 0);
    assert_eq!(h.pibsddomain1_register, [0x80, 0x37, 0x12, 0x40]);
    assert_eq!(h.unk_18, [1, 2, 3, 4, 5, 6, 7, 8]);
    assert_eq!(h.unk_34, [9, 10, 11, 12]);
}

#[test]
fn header_image_name() {
    let h = read_header(&header_bytes()).unwrap();
    assert_eq!(h.image_name(), "SUPER MARIO 64      ");
    let mut b = header_bytes();
    b[0x20] = 0x83;
    b[0x21] = 0x7D;
    let h = read_header(&b).unwrap();
    assert!(h.image_name().starts_with('\u{30DE}'));
}

#[test]
fn header_descriptions() {
    let h = read_header(&header_bytes()).unwrap();
    assert_eq!(h.media_format_description(), Ok("cartridge"));
    assert_eq!(h.country_code_description(), Ok("North America"));
    let mut b = header_bytes();
    b[0x3B] = b'Q';
    b[0x3E] = b'Q';
    let h = read_header(&b).unwrap();
    assert_eq!(h.media_format_description(), Err("Unrecognised media format"));
    assert_eq!(h.country_code_description(), Err("Unrecognised country code"));
    let mut b = header_bytes();
    b[0x3E] = 0;
    b[0x3B] = b'Z';
    let h = read_header(&b).unwrap();
    assert_eq!(h.country_code_description(), Ok("iQue roms have zeros here"));
    assert_eq!(h.media_format_description(), Ok("Aleck64 cartridge"));
}

#[test]
fn media_format_that_is_no_character() {
    let mut b = header_bytes();
    b[0x38] = 0x00;
    b[0x39] = 0x00;
    b[0x3A] = 0xD8;
    b[0x3B] = 0x00;
    let h = read_header(&b).unwrap();
    assert_eq!(h.media_format(), None);
    assert_eq!(h.media_format_description(), Err("Unrecognised media format"));
}

#[test]
fn short_header_is_truncated() {
    assert_eq!(read_header(&header_bytes()[..0x3F]).err(), Some(RomError::Truncated));
}
