use rusty_live2d::moc3::{
    Endianness, Moc3ArtMeshKeyformInfo, Moc3ArtMeshKeyforms, Moc3SectionOffsets,
};
use rusty_live2d::Error;

const SECTION_OFFSET_TABLE: usize = 0x40;
const SECTION_SLOTS: usize = 160;
const ART_MESH_COUNT: usize = 4;
const ART_MESH_KEYFORM_COUNT: usize = 9;
const KEYFORM_POSITION_COUNT: usize = 10;

fn u32_at(bytes: &[u8], offset: usize) -> u32 {
    if offset + 4 > bytes.len() {
        return 0;
    }
    u32::from_le_bytes([
        bytes[offset],
        bytes[offset + 1],
        bytes[offset + 2],
        bytes[offset + 3],
    ])
}

fn offsets_of(bytes: &[u8]) -> Moc3SectionOffsets {
    Moc3SectionOffsets::from_offsets(
        (0..SECTION_SLOTS)
            .map(|slot| u32_at(bytes, SECTION_OFFSET_TABLE + slot * 4))
            .collect(),
    )
}

fn count_of(bytes: &[u8], index: usize) -> u32 {
    let table = u32_at(bytes, SECTION_OFFSET_TABLE) as usize;
    u32_at(bytes, table + index * 4)
}

fn parse_keyforms(bytes: &[u8]) -> Result<Moc3ArtMeshKeyforms, Error> {
    Moc3ArtMeshKeyforms::parse(
        bytes,
        Endianness::Little,
        &offsets_of(bytes),
        count_of(bytes, ART_MESH_COUNT),
        count_of(bytes, ART_MESH_KEYFORM_COUNT),
        count_of(bytes, KEYFORM_POSITION_COUNT),
    )
}

fn bits(values: &[f32]) -> Vec<u32> {
    values.iter().map(|value| value.to_bits()).collect()
}

fn keyform(opacity: f32, draw_order: f32, position_begin_index: i32) -> Moc3ArtMeshKeyformInfo {
    Moc3ArtMeshKeyformInfo::new(opacity.to_bits(), draw_order.to_bits(), position_begin_index)
}

#[test]
fn moc3_art_mesh_keyforms_parses_moc3_art_mesh_keyform_positions() {
    let bytes = moc3_with_art_mesh_keyforms();

    let keyforms = parse_keyforms(&bytes).unwrap();

    assert_eq!(keyforms.keyforms().len(), 3);
    assert_eq!(keyforms.keyforms()[0], keyform(0.5, 100.0, 0));
    assert_eq!(keyforms.keyforms()[2], keyform(0.75, 50.0, 14));
    assert_eq!(
        keyforms.art_mesh_keyforms(0).unwrap(),
        &[keyform(0.5, 100.0, 0), keyform(1.0, 200.0, 8)]
    );
    assert_eq!(
        keyforms.art_mesh_keyform_positions(0, 0).unwrap(),
        bits(&[0.0, 0.0, 1.0, 0.0, 1.0, 1.0]).as_slice()
    );
    assert_eq!(
        keyforms.art_mesh_keyform_positions(0, 1).unwrap(),
        bits(&[0.1, 0.1, 1.1, 0.1, 1.1, 1.1]).as_slice()
    );
    assert_eq!(
        keyforms.art_mesh_keyform_positions(1, 0).unwrap(),
        bits(&[0.25, 0.25, 0.75, 0.75]).as_slice()
    );
}

#[test]
fn moc3_art_mesh_keyforms_rejects_out_of_range_moc3_art_mesh_keyform_positions() {
    let mut bytes = moc3_with_art_mesh_keyforms();
    write_i32_array(&mut bytes, 0x9c0, &[0, 8, 18]);

    let error = parse_keyforms(&bytes).unwrap_err();

    assert!(matches!(error, Error::InvalidMoc3 { .. }));
}

fn moc3_with_art_mesh_keyforms() -> Vec<u8> {
    let mut bytes = vec![0; 0xb00];
    bytes[0..4].copy_from_slice(b"MOC3");
    bytes[4] = 1;

    write_u32(&mut bytes, 0x40, 0x7c0);
    write_u32(&mut bytes, 0x44, 0x840);

    write_section_offset(&mut bytes, 35, 0x880);
    write_section_offset(&mut bytes, 36, 0x8c0);
    write_section_offset(&mut bytes, 43, 0x900);
    write_section_offset(&mut bytes, 68, 0x940);
    write_section_offset(&mut bytes, 69, 0x980);
    write_section_offset(&mut bytes, 70, 0x9c0);
    write_section_offset(&mut bytes, 71, 0xa00);

    write_u32(&mut bytes, 0x7d0, 2);
    write_u32(&mut bytes, 0x7e4, 3);
    write_u32(&mut bytes, 0x7e8, 20);

    write_i32_array(&mut bytes, 0x880, &[0, 2]);
    write_i32_array(&mut bytes, 0x8c0, &[2, 1]);
    write_i32_array(&mut bytes, 0x900, &[3, 2]);
    write_f32_array(&mut bytes, 0x940, &[0.5, 1.0, 0.75]);
    write_f32_array(&mut bytes, 0x980, &[100.0, 200.0, 50.0]);
    write_i32_array(&mut bytes, 0x9c0, &[0, 8, 14]);
    write_f32_array(
        &mut bytes,
        0xa00,
        &[
            0.0, 0.0, 1.0, 0.0, 1.0, 1.0, 9.0, 9.0, 0.1, 0.1, 1.1, 0.1, 1.1, 1.1, 0.25, 0.25,
            0.75, 0.75, 8.0, 8.0,
        ],
    );

    bytes
}

fn write_section_offset(bytes: &mut [u8], slot: usize, offset: u32) {
    write_u32(bytes, 0x40 + slot * 4, offset);
}

fn write_u32(bytes: &mut [u8], offset: usize, value: u32) {
    bytes[offset..offset + 4].copy_from_slice(&value.to_le_bytes());
}

fn write_i32_array(bytes: &mut [u8], offset: usize, values: &[i32]) {
    for (index, value) in values.iter().enumerate() {
        bytes[offset + index * 4..offset + index * 4 + 4].copy_from_slice(&value.to_le_bytes());
    }
}

fn write_f32_array(bytes: &mut [u8], offset: usize, values: &[f32]) {
    for (index, value) in values.iter().enumerate() {
        bytes[offset + index * 4..offset + index * 4 + 4].copy_from_slice(&value.to_le_bytes());
    }
}
