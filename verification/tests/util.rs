use id3::util::{
    be_u16, be_u32, bytes_eq, convert_id_2_to_3, convert_id_3_to_2, u16_to_bytes, u32_to_bytes,
};

#[test]
fn convert_id_2_to_3_knows_the_table() {
    assert_eq!(convert_id_2_to_3("TT2"), Some("TIT2"));
    assert_eq!(convert_id_2_to_3("BUF"), Some("RBUF"));
    assert_eq!(convert_id_2_to_3("WXX"), Some("WXXX"));
    assert_eq!(convert_id_2_to_3("ULT"), Some("USLT"));
}

#[test]
fn convert_id_2_to_3_refuses_what_the_table_lacks() {
    assert_eq!(convert_id_2_to_3("XYZ"), None);
    assert_eq!(convert_id_2_to_3("CRM"), None);
    assert_eq!(convert_id_2_to_3("tt2"), None);
    assert_eq!(convert_id_2_to_3(""), None);
    assert_eq!(convert_id_2_to_3("TT"), None);
    assert_eq!(convert_id_2_to_3("TIT2"), None);
    assert_eq!(convert_id_2_to_3("\u{e9}a"), None);
}

#[test]
fn convert_id_3_to_2_knows_the_table() {
    assert_eq!(convert_id_3_to_2("TIT2"), Some("TT2"));
    assert_eq!(convert_id_3_to_2("RBUF"), Some("BUF"));
    assert_eq!(convert_id_3_to_2("APIC"), Some("PIC"));
    assert_eq!(convert_id_3_to_2("WXXX"), Some("WXX"));
}

#[test]
fn convert_id_3_to_2_refuses_what_the_table_lacks() {
    assert_eq!(convert_id_3_to_2("ZZZZ"), None);
    assert_eq!(convert_id_3_to_2("TDRC"), None);
    assert_eq!(convert_id_3_to_2("TT2"), None);
    assert_eq!(convert_id_3_to_2("TIT22"), None);
    assert_eq!(convert_id_3_to_2(""), None);
}

#[test]
fn be_u32_reads_the_most_significant_byte_first() {
    assert_eq!(be_u32(&[0, 0, 0, 5], 0), 5);
    assert_eq!(be_u32(&[1, 2, 3, 4], 0), 0x0102_0304);
    assert_eq!(be_u32(&[9, 9, 0xff, 0xff, 0xff, 0xff], 2), u32::MAX);
    assert_eq!(be_u32(&[7, 0, 0, 1, 0], 1), 256);
}

#[test]
fn be_u16_reads_the_most_significant_byte_first() {
    assert_eq!(be_u16(&[0x80, 0x00], 0), 0x8000);
    assert_eq!(be_u16(&[0, 0, 0x00, 0x40], 2), 0x0040);
    assert_eq!(be_u16(&[0xff, 0xff], 0), u16::MAX);
}

#[test]
fn u32_to_bytes_writes_the_most_significant_byte_first() {
    assert_eq!(u32_to_bytes(5), vec![0, 0, 0, 5]);
    assert_eq!(u32_to_bytes(0x0102_0304), vec![1, 2, 3, 4]);
    assert_eq!(u32_to_bytes(u32::MAX), vec![0xff, 0xff, 0xff, 0xff]);
    assert_eq!(u32_to_bytes(0), vec![0, 0, 0, 0]);
}

#[test]
fn u16_to_bytes_writes_the_most_significant_byte_first() {
    assert_eq!(u16_to_bytes(0xe080), vec![0xe0, 0x80]);
    assert_eq!(u16_to_bytes(1), vec![0, 1]);
}

#[test]
fn numbers_come_back_from_their_bytes() {
    for n in [0u32, 1, 255, 256, 65_535, 65_536, 16_777_215, 16_777_216, 0xdead_beef, u32::MAX] {
        assert_eq!(be_u32(&u32_to_bytes(n), 0), n);
    }
    for n in [0u16, 1, 255, 256, 0x8000, u16::MAX] {
        assert_eq!(be_u16(&u16_to_bytes(n), 0), n);
    }
}

#[test]
fn bytes_eq_compares_length_and_bytes() {
    assert!(bytes_eq(&[], &[]));
    assert!(bytes_eq(&[1, 2, 3], &[1, 2, 3]));
    assert!(!bytes_eq(&[1, 2, 3], &[1, 2]));
    assert!(!bytes_eq(&[1, 2, 3], &[1, 2, 4]));
    assert!(!bytes_eq(&[], &[0]));
}
