use rusty_live2d::moc3::{
    Endianness, Moc3ArtMeshInfo, Moc3ArtMeshKeyformInfo, Moc3ArtMeshKeyforms, Moc3ArtMeshes,
    Moc3DrawableBlendMode, Moc3SectionOffsets, build_moc3_drawable_mesh,
    build_moc3_drawable_meshes,
};
use rusty_live2d::moc3::art_meshes::{nonnegative_range_len, validate_range};
use rusty_live2d::Error;

const SECTION_OFFSET_TABLE: usize = 0x40;
const SECTION_SLOTS: usize = 160;
const ART_MESH_COUNT: usize = 4;
const ART_MESH_KEYFORM_COUNT: usize = 9;
const KEYFORM_POSITION_COUNT: usize = 10;
const UV_COUNT: usize = 15;
const POSITION_INDEX_COUNT: usize = 16;
const DRAWABLE_MASK_COUNT: usize = 17;

fn u32_at(bytes: &[u8], offset: usize) -> u32 {
    if offset + 4 > bytes.len() {
        return 0;
    }
    u32::from_le_bytes([
        bytes[offset],
        bytes[offset + 1],
        bytes[offset + 2],
        bytes[offset + 3],
    ])
}

fn offsets_of(bytes: &[u8]) -> Moc3SectionOffsets {
    Moc3SectionOffsets::from_offsets(
        (0..SECTION_SLOTS)
            .map(|slot| u32_at(bytes, SECTION_OFFSET_TABLE + slot * 4))
            .collect(),
    )
}

fn count_of(bytes: &[u8], index: usize) -> u32 {
    let table = u32_at(bytes, SECTION_OFFSET_TABLE) as usize;
    u32_at(bytes, table + index * 4)
}

fn parse_art_meshes(bytes: &[u8]) -> Result<Moc3ArtMeshes, Error> {
    // The fixtures declare no draw order group objects.
    Moc3ArtMeshes::parse(
        bytes,
        Endianness::Little,
        &offsets_of(bytes),
        count_of(bytes, ART_MESH_COUNT),
        count_of(bytes, UV_COUNT),
        count_of(bytes, POSITION_INDEX_COUNT),
        count_of(bytes, DRAWABLE_MASK_COUNT),
        0,
    )
}

fn parse_keyforms(bytes: &[u8]) -> Result<Moc3ArtMeshKeyforms, Error> {
    Moc3ArtMeshKeyforms::parse(
        bytes,
        Endianness::Little,
        &offsets_of(bytes),
        count_of(bytes, ART_MESH_COUNT),
        count_of(bytes, ART_MESH_KEYFORM_COUNT),
        count_of(bytes, KEYFORM_POSITION_COUNT),
    )
}

fn bits(values: &[f32]) -> Vec<u32> {
    values.iter().map(|value| value.to_bits()).collect()
}

fn keyform(opacity: f32, draw_order: f32, position_begin_index: i32) -> Moc3ArtMeshKeyformInfo {
    Moc3ArtMeshKeyformInfo::new(opacity.to_bits(), draw_order.to_bits(), position_begin_index)
}

#[test]
fn parses_moc3_art_mesh_render_sections() {
    let bytes = moc3_with_art_meshes();

    let art_meshes = parse_art_meshes(&bytes).unwrap();

    assert_eq!(art_meshes.meshes().len(), 2);
    assert_eq!(
        art_meshes.meshes()[0],
        Moc3ArtMeshInfo::new(1, 0b0000_0011, 6, 0, 0, 4, 0, 1)
    );
    assert_eq!(
        art_meshes.meshes()[1],
        Moc3ArtMeshInfo::new(0, 0b0000_0100, 3, 8, 6, 2, 1, 1)
    );
    assert_eq!(
        art_meshes.art_mesh_uvs(0).unwrap(),
        bits(&[0.0, 0.0, 1.0, 0.0, 1.0, 1.0, 0.0, 1.0]).as_slice()
    );
    assert_eq!(
        art_meshes.art_mesh_position_indices(0).unwrap(),
        &[0, 1, 2, 0, 2, 3]
    );
    assert_eq!(art_meshes.art_mesh_masks(0).unwrap(), &[1]);
    assert_eq!(
        art_meshes.art_mesh_uvs(1).unwrap(),
        bits(&[0.25, 0.25, 0.75, 0.75]).as_slice()
    );
    assert_eq!(art_meshes.art_mesh_position_indices(1).unwrap(), &[0, 1, 0]);
    assert_eq!(art_meshes.art_mesh_masks(1).unwrap(), &[0]);
}

#[test]
fn rejects_incomplete_moc3_art_mesh_section() {
    let mut bytes = moc3_with_art_meshes();
    bytes.truncate(0xa90);

    let error = parse_art_meshes(&bytes).unwrap_err();

    assert!(matches!(error, Error::InvalidMoc3 { .. }));
}

#[test]
fn moc3_art_meshes_parses_moc3_art_mesh_keyform_positions() {
    let bytes = moc3_with_art_mesh_keyforms();

    let keyforms = parse_keyforms(&bytes).unwrap();

    assert_eq!(keyforms.keyforms().len(), 3);
    assert_eq!(keyforms.keyforms()[0], keyform(0.5, 100.0, 0));
    assert_eq!(keyforms.keyforms()[2], keyform(0.75, 50.0, 14));
    assert_eq!(
        keyforms.art_mesh_keyforms(0).unwrap(),
        &[keyform(0.5, 100.0, 0), keyform(1.0, 200.0, 8)]
    );
    assert_eq!(
        keyforms.art_mesh_keyform_positions(0, 0).unwrap(),
        bits(&[0.0, 0.0, 1.0, 0.0, 1.0, 1.0]).as_slice()
    );
    assert_eq!(
        keyforms.art_mesh_keyform_positions(0, 1).unwrap(),
        bits(&[0.1, 0.1, 1.1, 0.1, 1.1, 1.1]).as_slice()
    );
    assert_eq!(
        keyforms.art_mesh_keyform_positions(1, 0).unwrap(),
        bits(&[0.25, 0.25, 0.75, 0.75]).as_slice()
    );
}

#[test]
fn moc3_art_meshes_rejects_out_of_range_moc3_art_mesh_keyform_positions() {
    let mut bytes = moc3_with_art_mesh_keyforms();
    write_i32_array(&mut bytes, 0x9c0, &[0, 8, 18]);

    let error = parse_keyforms(&bytes).unwrap_err();

    assert!(matches!(error, Error::InvalidMoc3 { .. }));
}

#[test]
fn builds_moc3_drawable_mesh_from_art_mesh_sections() {
    let art_meshes = Moc3ArtMeshes::from_parts(
        vec![Moc3ArtMeshInfo::new(2, 0b0000_0100, 6, 0, 0, 4, 0, 1)],
        bits(&[0.0, 0.0, 1.0, 0.0, 1.0, 1.0, 0.0, 1.0]),
        vec![0, 1, 2, 0, 2, 3],
        vec![7],
    )
    .unwrap();
    let keyforms = Moc3ArtMeshKeyforms::from_parts(
        vec![0],
        vec![1],
        vec![4],
        vec![keyform(0.8, 500.0, 0)],
        bits(&[-1.0, -1.0, 1.0, -1.0, 1.0, 1.0, -1.0, 1.0]),
    )
    .unwrap();

    let mesh = build_moc3_drawable_mesh(&art_meshes, &keyforms, 0, 0).unwrap();

    assert_eq!(mesh.texture_index(), 2);
    assert_eq!(mesh.drawable_flags(), 0b0000_0100);
    assert_eq!(f32::from_bits(mesh.opacity()), 0.8);
    assert_eq!(f32::from_bits(mesh.draw_order()), 500.0);
    assert_eq!(mesh.masks(), &[7]);
    assert_eq!(mesh.indices(), &[0, 1, 2, 0, 2, 3]);
    assert_eq!(mesh.vertices().len(), 4);
    assert_eq!(mesh.vertices()[0].position().map(f32::from_bits), [-1.0, -1.0]);
    assert_eq!(mesh.vertices()[0].uv().map(f32::from_bits), [0.0, 0.0]);
    assert_eq!(mesh.vertices()[2].position().map(f32::from_bits), [1.0, 1.0]);
    assert_eq!(mesh.vertices()[2].uv().map(f32::from_bits), [1.0, 1.0]);
}

#[test]
fn resolves_drawable_blend_mode_from_core_flags() {
    assert_eq!(
        Moc3DrawableBlendMode::from_flags(0),
        Moc3DrawableBlendMode::Normal
    );
    assert_eq!(
        Moc3DrawableBlendMode::from_flags(1 << 0),
        Moc3DrawableBlendMode::Additive
    );
    assert_eq!(
        Moc3DrawableBlendMode::from_flags(1 << 1),
        Moc3DrawableBlendMode::Multiplicative
    );
}

#[test]
fn rejects_moc3_drawable_mesh_with_out_of_range_indices() {
    let art_meshes = Moc3ArtMeshes::from_parts(
        vec![Moc3ArtMeshInfo::new(0, 0, 3, 0, 0, 2, 0, 0)],
        bits(&[0.0, 0.0, 1.0, 1.0]),
        vec![0, 1, 2],
        Vec::new(),
    )
    .unwrap();
    let keyforms = Moc3ArtMeshKeyforms::from_parts(
        vec![0],
        vec![1],
        vec![2],
        vec![keyform(1.0, 0.0, 0)],
        bits(&[0.0, 0.0, 1.0, 1.0]),
    )
    .unwrap();

    assert!(build_moc3_drawable_mesh(&art_meshes, &keyforms, 0, 0).is_none());
}

#[test]
fn builds_all_moc3_drawable_meshes_from_first_keyform() {
    let art_meshes = Moc3ArtMeshes::from_parts(
        vec![
            Moc3ArtMeshInfo::new(0, 0, 3, 0, 0, 3, 0, 0),
            Moc3ArtMeshInfo::new(1, 4, 3, 6, 3, 3, 0, 0),
        ],
        bits(&[0.0, 0.0, 1.0, 0.0, 0.0, 1.0, 0.5, 0.5, 1.0, 0.5, 0.5, 1.0]),
        vec![0, 1, 2, 0, 1, 2],
        Vec::new(),
    )
    .unwrap();
    let keyforms = Moc3ArtMeshKeyforms::from_parts(
        vec![0, 1],
        vec![1, 1],
        vec![3, 3],
        vec![keyform(1.0, 10.0, 0), keyform(0.5, 20.0, 6)],
        bits(&[0.0, 0.0, 1.0, 0.0, 0.0, 1.0, 2.0, 2.0, 3.0, 2.0, 2.0, 3.0]),
    )
    .unwrap();

    let meshes = build_moc3_drawable_meshes(&art_meshes, &keyforms).unwrap();

    assert_eq!(meshes.len(), 2);
    assert_eq!(meshes[0].texture_index(), 0);
    assert_eq!(meshes[1].texture_index(), 1);
    assert_eq!(f32::from_bits(meshes[1].opacity()), 0.5);
    assert_eq!(meshes[1].vertices()[0].position().map(f32::from_bits), [2.0, 2.0]);
}

fn moc3_with_art_meshes() -> Vec<u8> {
    let mut bytes = vec![0; 0xc00];
    bytes[0..4].copy_from_slice(b"MOC3");
    bytes[4] = 1;

    write_u32(&mut bytes, 0x40, 0x7c0);
    write_u32(&mut bytes, 0x44, 0x840);

    write_section_offset(&mut bytes, 41, 0x880);
    write_section_offset(&mut bytes, 42, 0x8c0);
    write_section_offset(&mut bytes, 43, 0x900);
    write_section_offset(&mut bytes, 44, 0x940);
    write_section_offset(&mut bytes, 45, 0x980);
    write_section_offset(&mut bytes, 46, 0x9c0);
    write_section_offset(&mut bytes, 47, 0xa00);
    write_section_offset(&mut bytes, 48, 0xa40);
    write_section_offset(&mut bytes, 78, 0xa80);
    write_section_offset(&mut bytes, 79, 0xb40);
    write_section_offset(&mut bytes, 80, 0xb80);

    write_u32(&mut bytes, 0x7d0, 2);
    write_u32(&mut bytes, 0x7fc, 12);
    write_u32(&mut bytes, 0x800, 9);
    write_u32(&mut bytes, 0x804, 2);

    write_i32_array(&mut bytes, 0x880, &[1, 0]);
    bytes[0x8c0..0x8c2].copy_from_slice(&[0b0000_0011, 0b0000_0100]);
    write_i32_array(&mut bytes, 0x900, &[4, 2]);
    write_i32_array(&mut bytes, 0x940, &[0, 8]);
    write_i32_array(&mut bytes, 0x980, &[0, 6]);
    write_i32_array(&mut bytes, 0x9c0, &[6, 3]);
    write_i32_array(&mut bytes, 0xa00, &[0, 1]);
    write_i32_array(&mut bytes, 0xa40, &[1, 1]);
    write_f32_array(
        &mut bytes,
        0xa80,
        &[
            0.0, 0.0, 1.0, 0.0, 1.0, 1.0, 0.0, 1.0, 0.25, 0.25, 0.75, 0.75,
        ],
    );
    write_i16_array(&mut bytes, 0xb40, &[0, 1, 2, 0, 2, 3, 0, 1, 0]);
    write_i32_array(&mut bytes, 0xb80, &[1, 0]);

    bytes
}

fn moc3_with_art_mesh_keyforms() -> Vec<u8> {
    let mut bytes = vec![0; 0xb00];
    bytes[0..4].copy_from_slice(b"MOC3");
    bytes[4] = 1;

    write_u32(&mut bytes, 0x40, 0x7c0);
    write_u32(&mut bytes, 0x44, 0x840);

    write_section_offset(&mut bytes, 35, 0x880);
    write_section_offset(&mut bytes, 36, 0x8c0);
    write_section_offset(&mut bytes, 43, 0x900);
    write_section_offset(&mut bytes, 68, 0x940);
    write_section_offset(&mut bytes, 69, 0x980);
    write_section_offset(&mut bytes, 70, 0x9c0);
    write_section_offset(&mut bytes, 71, 0xa00);

    write_u32(&mut bytes, 0x7d0, 2);
    write_u32(&mut bytes, 0x7e4, 3);
    write_u32(&mut bytes, 0x7e8, 20);

    write_i32_array(&mut bytes, 0x880, &[0, 2]);
    write_i32_array(&mut bytes, 0x8c0, &[2, 1]);
    write_i32_array(&mut bytes, 0x900, &[3, 2]);
    write_f32_array(&mut bytes, 0x940, &[0.5, 1.0, 0.75]);
    write_f32_array(&mut bytes, 0x980, &[100.0, 200.0, 50.0]);
    write_i32_array(&mut bytes, 0x9c0, &[0, 8, 14]);
    write_f32_array(
        &mut bytes,
        0xa00,
        &[
            0.0, 0.0, 1.0, 0.0, 1.0, 1.0, 9.0, 9.0, 0.1, 0.1, 1.1, 0.1, 1.1, 1.1, 0.25, 0.25,
            0.75, 0.75, 8.0, 8.0,
        ],
    );

    bytes
}

fn write_section_offset(bytes: &mut [u8], slot: usize, offset: u32) {
    write_u32(bytes, 0x40 + slot * 4, offset);
}

fn write_u32(bytes: &mut [u8], offset: usize, value: u32) {
    bytes[offset..offset + 4].copy_from_slice(&value.to_le_bytes());
}

fn write_i32_array(bytes: &mut [u8], offset: usize, values: &[i32]) {
    for (index, value) in values.iter().enumerate() {
        bytes[offset + index * 4..offset + index * 4 + 4].copy_from_slice(&value.to_le_bytes());
    }
}

fn write_i16_array(bytes: &mut [u8], offset: usize, values: &[i16]) {
    for (index, value) in values.iter().enumerate() {
        bytes[offset + index * 2..offset + index * 2 + 2].copy_from_slice(&value.to_le_bytes());
    }
}

fn write_f32_array(bytes: &mut [u8], offset: usize, values: &[f32]) {
    for (index, value) in values.iter().enumerate() {
        bytes[offset + index * 4..offset + index * 4 + 4].copy_from_slice(&value.to_le_bytes());
    }
}

fn invalid_message(error: Error) -> String {
    match error {
        Error::InvalidMoc3 { message } => message,
        other => panic!("unexpected error {other:?}"),
    }
}

#[test]
fn range_errors_name_the_mesh_and_the_range() {
    assert_eq!(
        invalid_message(validate_range(-1, 2, 10, 3, "uv").unwrap_err()),
        "art mesh 3 uv begin index is negative"
    );
    assert_eq!(
        invalid_message(validate_range(4, usize::MAX, 10, 0, "mask").unwrap_err()),
        "art mesh 0 mask range overflows"
    );
    assert_eq!(
        invalid_message(validate_range(8, 3, 10, 12, "position index").unwrap_err()),
        "art mesh 12 position index range is outside section"
    );
    assert!(validate_range(7, 3, 10, 12, "position index").is_ok());
    assert_eq!(
        invalid_message(nonnegative_range_len(-2, 1, "mask count").unwrap_err()),
        "mask count is negative"
    );
    assert_eq!(nonnegative_range_len(3, 2, "vertex count").unwrap(), 6);
}

#[test]
fn table_errors_report_the_first_mesh_out_of_range() {
    let result = Moc3ArtMeshes::from_parts(
        vec![
            Moc3ArtMeshInfo::new(0, 0, 3, 0, 0, 2, 0, 0),
            Moc3ArtMeshInfo::new(0, 0, 3, 2, 0, 2, 0, 0),
            Moc3ArtMeshInfo::new(0, 0, 3, 0, 0, 2, 0, 5),
        ],
        vec![0; 4],
        vec![0, 1, 2],
        vec![],
    );
    assert_eq!(
        invalid_message(result.unwrap_err()),
        "art mesh 1 uv range is outside section"
    );

    let result = Moc3ArtMeshes::from_parts_with_hierarchy_and_render_orders(
        vec![Moc3ArtMeshInfo::new(0, 0, 3, 0, 0, 2, 0, 0)],
        vec![0],
        vec![],
        vec![0],
        vec![0; 4],
        vec![0, 1, 2],
        vec![],
    );
    assert_eq!(
        invalid_message(result.unwrap_err()),
        "art mesh hierarchy metadata lengths do not match"
    );
}

#[test]
fn tables_without_hierarchy_have_band_zero_no_parent_and_own_render_order() {
    let meshes = vec![
        Moc3ArtMeshInfo::new(0, 0, 3, 0, 0, 2, 0, 0),
        Moc3ArtMeshInfo::new(1, 0, 3, 0, 0, 2, 0, 1),
    ];
    let plain = Moc3ArtMeshes::from_parts(meshes.clone(), vec![0; 4], vec![0, 1, 2], vec![0]);
    let explicit = Moc3ArtMeshes::from_parts_with_hierarchy_and_render_orders(
        meshes.clone(),
        vec![0, 0],
        vec![-1, -1],
        vec![0, 1],
        vec![0; 4],
        vec![0, 1, 2],
        vec![0],
    );
    assert_eq!(plain, explicit);

    let plain = Moc3ArtMeshes::from_parts(meshes.clone(), vec![0; 4], vec![0, 1, 2], vec![]);
    let explicit = Moc3ArtMeshes::from_parts_with_hierarchy_and_render_orders(
        meshes,
        vec![0, 0],
        vec![-1, -1],
        vec![0, 1],
        vec![0; 4],
        vec![0, 1, 2],
        vec![],
    );
    assert_eq!(plain, explicit);
    assert_eq!(
        invalid_message(plain.unwrap_err()),
        "art mesh 1 mask range is outside section"
    );
}

#[test]
fn parse_errors_name_the_first_section_or_mesh_that_fails() {
    let empty = Moc3SectionOffsets::from_offsets(vec![0; SECTION_SLOTS]);
    let error = Moc3ArtMeshes::parse(&[], Endianness::Little, &empty, 2, 0, 0, 0, 0).unwrap_err();
    assert_eq!(invalid_message(error), "section slot 41 has no offset");

    let short = Moc3SectionOffsets::from_offsets(vec![0; 10]);
    let error = Moc3ArtMeshes::parse(&[], Endianness::Little, &short, 2, 0, 0, 0, 0).unwrap_err();
    assert_eq!(invalid_message(error), "section slot 41 is outside offset table");

    let mut bytes = moc3_with_art_meshes();
    let vertex_counts = offsets_of(&bytes).section_offset(43).unwrap() as usize;
    bytes[vertex_counts..vertex_counts + 4].copy_from_slice(&1000i32.to_le_bytes());
    assert_eq!(
        invalid_message(parse_art_meshes(&bytes).unwrap_err()),
        "art mesh 0 uv range is outside section"
    );
}

#[test]
fn reads_tables_straight_from_file_bytes() {
    let bytes = moc3_with_art_meshes();
    assert_eq!(Moc3ArtMeshes::parse_file(&bytes), parse_art_meshes(&bytes));
    assert!(Moc3ArtMeshes::parse_file(&bytes).is_ok());
    assert_eq!(Moc3ArtMeshKeyforms::parse_file(&bytes), parse_keyforms(&bytes));

    let error = Moc3ArtMeshes::parse_file(&bytes[..0x100]).unwrap_err();
    assert_eq!(invalid_message(error), "moc3 section offset table is incomplete");
}
