use rust_computer::{DataWidth, Memory};

#[test]
fn new_memory_is_zeroed() {
    let m = Memory::new(8);
    assert_eq!(m.data, vec![0u8; 8]);
}

#[test]
fn word_round_trip_is_big_endian() {
    let mut m = Memory::new(8);
    assert!(m.write_word(2, 0x1234_5678).is_ok());
    assert_eq!(m.data, vec![0, 0, 0x12, 0x34, 0x56, 0x78, 0, 0]);
    assert_eq!(m.read_word(2).ok(), Some(0x1234_5678));
}

#[test]
fn short_and_byte_round_trip() {
    let mut m = Memory::new(4);
    assert!(m.write_short(1, 0xBEEF).is_ok());
    assert_eq!(m.data, vec![0, 0xBE, 0xEF, 0]);
    assert_eq!(m.read_short(1).ok(), Some(0xBEEF));
    assert!(m.write_byte(3, 0x7F).is_ok());
    assert_eq!(m.read_byte(3).ok(), Some(0x7F));
}

#[test]
fn width_round_trip_truncates() {
    let widths = [DataWidth::Byte, DataWidth::Short, DataWidth::Word];
    let values = [0u32, 1, 0x7F, 0x1FF, 0xABCD, 0x1_2345, 0xFFFF_FFFF, 0xDEAD_BEEF];
    for w in widths {
        for v in values {
            let mut m = Memory::new(16);
            assert!(m.write_width(w, 5, v).is_ok());
            assert_eq!(m.read_width(w, 5).ok(), Some(v & w.bitmask()));
        }
    }
}

#[test]
fn width_sizes_and_masks() {
    assert_eq!(DataWidth::Byte.size(), 1);
    assert_eq!(DataWidth::Short.size(), 2);
    assert_eq!(DataWidth::Word.size(), 4);
    assert_eq!(DataWidth::Byte.bitmask(), 0xff);
    assert_eq!(DataWidth::Short.bitmask(), 0xffff);
    assert_eq!(DataWidth::Word.bitmask(), 0xffff_ffff);
}

#[test]
fn access_at_the_very_end_fits() {
    let mut m = Memory::new(4);
    assert!(m.write_word(0, 0x0102_0304).is_ok());
    assert_eq!(m.read_word(0).ok(), Some(0x0102_0304));
    assert_eq!(m.read_short(2).ok(), Some(0x0304));
    assert_eq!(m.read_byte(3).ok(), Some(0x04));
}

#[test]
fn out_of_bounds_reads_fail() {
    let m = Memory::new(4);
    assert!(m.read_byte(4).is_err());
    assert!(m.read_short(3).is_err());
    assert!(m.read_word(1).is_err());
    assert!(m.read_word(u32::MAX).is_err());
    for w in [DataWidth::Byte, DataWidth::Short, DataWidth::Word] {
        assert!(m.read_width(w, 4).is_err());
    }
}

#[test]
fn out_of_bounds_writes_change_nothing() {
    let mut m = Memory::new(4);
    assert!(m.write_word(0, 0xAABB_CCDD).is_ok());
    let before = m.data.clone();
    assert!(m.write_word(1, 0x1111_1111).is_err());
    assert!(m.write_short(3, 0x2222).is_err());
    assert!(m.write_byte(4, 0x33).is_err());
    assert!(m.write_width(DataWidth::Word, u32::MAX, 0x44).is_err());
    assert_eq!(m.data, before);
}

#[test]
fn empty_memory_rejects_everything() {
    let mut m = Memory::new(0);
    assert!(m.read_byte(0).is_err());
    assert!(m.write_byte(0, 1).is_err());
    assert!(m.data.is_empty());
}

#[test]
fn load_image_copies_what_fits() {
    let mut m = Memory::new(4);
    m.load_image(&[1, 2]);
    assert_eq!(m.data, vec![1, 2, 0, 0]);
    m.load_image(&[9, 8, 7, 6, 5, 4]);
    assert_eq!(m.data, vec![9, 8, 7, 6]);
}
