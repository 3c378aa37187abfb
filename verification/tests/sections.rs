use rusty_live2d::moc3::sections::{
    decode_i16, decode_i32, decode_u32, read_i16_section, read_i32_section,
    read_i32_section_or_default, read_u32_section, read_u8_section, read_section, to_usize,
};
use rusty_live2d::moc3::{Endianness, Moc3SectionOffsets};
use rusty_live2d::Error;

fn offsets(slots: &[u32]) -> Moc3SectionOffsets {
    Moc3SectionOffsets::from_offsets(slots.to_vec())
}

#[test]
fn decodes_both_byte_orders() {
    let bytes = [0x01, 0x02, 0x03, 0x84];
    assert_eq!(decode_u32(&bytes, 0, Endianness::Little), 0x8403_0201);
    assert_eq!(decode_u32(&bytes, 0, Endianness::Big), 0x0102_0384);
    assert_eq!(
        decode_i32(&bytes, 0, Endianness::Little),
        i32::from_le_bytes(bytes)
    );
    assert_eq!(
        decode_i32(&bytes, 0, Endianness::Big),
        i32::from_be_bytes(bytes)
    );
    assert_eq!(decode_i16(&bytes, 2, Endianness::Little), i16::from_le_bytes([0x03, 0x84]));
    assert_eq!(decode_i16(&bytes, 2, Endianness::Big), i16::from_be_bytes([0x03, 0x84]));
    assert_eq!(decode_i32(&[0xff; 4], 0, Endianness::Little), -1);
}

#[test]
fn section_offset_lookup_ends_with_the_table() {
    let table = offsets(&[0x10, 0, 0x20]);
    assert_eq!(table.section_offset(0), Some(0x10));
    assert_eq!(table.section_offset(1), Some(0));
    assert_eq!(table.section_offset(3), None);
    assert_eq!(table.section_offsets(), &[0x10, 0, 0x20]);
}

#[test]
fn reads_sections_at_their_offsets() {
    let mut bytes = vec![0u8; 0x20];
    bytes[0x08..0x10].copy_from_slice(&[1, 0, 0, 0, 0xfe, 0xff, 0xff, 0xff]);
    bytes[0x10..0x14].copy_from_slice(&[7, 0, 0xf9, 0xff]);
    bytes[0x18..0x1b].copy_from_slice(&[9, 8, 7]);
    let table = offsets(&[0x08, 0x10, 0x18, 0]);

    assert_eq!(
        read_i32_section(&bytes, &table, 0, 2, Endianness::Little).unwrap(),
        vec![1, -2]
    );
    assert_eq!(
        read_u32_section(&bytes, &table, 0, 2, Endianness::Little).unwrap(),
        vec![1, 0xffff_fffe]
    );
    assert_eq!(
        read_i16_section(&bytes, &table, 1, 2, Endianness::Little).unwrap(),
        vec![7, -7]
    );
    assert_eq!(read_u8_section(&bytes, &table, 2, 3).unwrap(), vec![9, 8, 7]);
}

#[test]
fn empty_sections_need_no_offset() {
    let table = offsets(&[]);
    assert_eq!(
        read_i32_section(&[], &table, 5, 0, Endianness::Little).unwrap(),
        Vec::<i32>::new()
    );
}

#[test]
fn rejects_missing_zero_or_short_sections() {
    let bytes = vec![0u8; 0x10];
    let table = offsets(&[0x08, 0]);

    assert!(matches!(
        read_i32_section(&bytes, &table, 2, 1, Endianness::Little),
        Err(Error::InvalidMoc3 { .. })
    ));
    assert!(matches!(
        read_i32_section(&bytes, &table, 1, 1, Endianness::Little),
        Err(Error::InvalidMoc3 { .. })
    ));
    assert!(matches!(
        read_i32_section(&bytes, &table, 0, 3, Endianness::Little),
        Err(Error::InvalidMoc3 { .. })
    ));
    assert!(read_i32_section(&bytes, &table, 0, 2, Endianness::Little).is_ok());
}

#[test]
fn read_section_hands_each_element_position_to_the_reader() {
    let bytes = vec![0u8; 0x20];
    let table = offsets(&[0x04]);
    let positions = read_section(&bytes, &table, 0, 3, 4, |_, at| at).unwrap();
    assert_eq!(positions, vec![0x04, 0x08, 0x0c]);
}

#[test]
fn missing_optional_sections_take_the_default() {
    let bytes = vec![0u8; 0x10];
    assert_eq!(
        read_i32_section_or_default(&bytes, &offsets(&[0]), 0, 3, Endianness::Big, -1).unwrap(),
        vec![-1, -1, -1]
    );
    assert_eq!(
        read_i32_section_or_default(&bytes, &offsets(&[]), 4, 2, Endianness::Big, 0).unwrap(),
        vec![0, 0]
    );
    assert!(read_i32_section_or_default(&bytes, &offsets(&[0x0c]), 0, 2, Endianness::Big, 0).is_err());
}

#[test]
fn counts_convert_to_usize() {
    assert_eq!(to_usize(41472, "count").unwrap(), 41472);
}

fn message(error: Error) -> String {
    match error {
        Error::InvalidMoc3 { message } => message,
        other => panic!("unexpected error {other:?}"),
    }
}

#[test]
fn section_errors_name_the_slot_and_the_problem() {
    let bytes = vec![0u8; 0x10];
    let table = offsets(&[0x08, 0]);

    assert_eq!(
        message(read_i32_section(&bytes, &table, 12, 1, Endianness::Little).unwrap_err()),
        "section slot 12 is outside offset table"
    );
    assert_eq!(
        message(read_i32_section(&bytes, &table, 1, 1, Endianness::Little).unwrap_err()),
        "section slot 1 has no offset"
    );
    assert_eq!(
        message(read_i32_section(&bytes, &table, 0, 3, Endianness::Little).unwrap_err()),
        "section slot 0 is incomplete"
    );
    assert_eq!(
        message(read_section(&bytes, &table, 0, usize::MAX, 2, |_, at| at).unwrap_err()),
        "section slot 0 size overflows"
    );
}

#[test]
fn zero_sized_elements_are_all_read_at_the_section_offset() {
    let bytes = vec![0u8; 0x10];
    let table = offsets(&[0x08]);
    let positions = read_section(&bytes, &table, 0, 3, 0, |_, at| at).unwrap();
    assert_eq!(positions, vec![0x08, 0x08, 0x08]);
}
