use rusty_live2d::moc3::sections::read_bool_section;
use rusty_live2d::moc3::{
    Endianness, Moc3ArtMeshInfo, Moc3ArtMeshKeyformInfo, Moc3ArtMeshKeyforms, Moc3ArtMeshes,
    Moc3SectionOffsets,
};
use rusty_live2d::Error;

fn mesh(uv_begin: i32, vertex_count: i32, index_begin: i32, index_count: i32, mask_begin: i32, mask_count: i32) -> Moc3ArtMeshInfo {
    Moc3ArtMeshInfo::new(0, 0, index_count, uv_begin, index_begin, vertex_count, mask_begin, mask_count)
}

fn is_invalid_moc3<T>(result: Result<T, Error>) -> bool {
    matches!(result, Err(Error::InvalidMoc3 { .. }))
}

#[test]
fn art_mesh_tables_expose_each_mesh_range() {
    let tables = Moc3ArtMeshes::from_parts_with_hierarchy_and_render_orders(
        vec![mesh(0, 2, 0, 3, 0, 1), mesh(4, 1, 3, 0, 1, 0)],
        vec![5, -1],
        vec![-1, 0],
        vec![1, 0],
        vec![1, 2, 3, 4, 5, 6],
        vec![0, 1, 0],
        vec![1],
    )
    .unwrap();

    assert_eq!(tables.art_mesh_uvs(0), Some(&[1, 2, 3, 4][..]));
    assert_eq!(tables.art_mesh_uvs(1), Some(&[5, 6][..]));
    assert_eq!(tables.art_mesh_uvs(2), None);
    assert_eq!(tables.art_mesh_position_indices(0), Some(&[0, 1, 0][..]));
    assert_eq!(tables.art_mesh_position_indices(1), Some(&[][..]));
    assert_eq!(tables.art_mesh_masks(0), Some(&[1][..]));
    assert_eq!(tables.art_mesh_masks(5), None);
    assert_eq!(tables.art_mesh_keyform_binding_band_index(0), Some(5));
    assert_eq!(tables.art_mesh_parent_deformer_index(1), Some(0));
    assert_eq!(tables.art_mesh_render_order(0), Some(1));
    assert_eq!(tables.art_mesh_render_order(2), None);
    assert_eq!(tables.render_orders(), &[1, 0]);
    assert_eq!(tables.meshes().len(), 2);
    assert_eq!(tables.meshes()[1].vertex_count(), 1);
}

#[test]
fn art_mesh_tables_default_their_hierarchy() {
    let tables = Moc3ArtMeshes::from_parts(
        vec![mesh(0, 1, 0, 0, 0, 0), mesh(0, 1, 0, 0, 0, 0)],
        vec![7, 8],
        vec![],
        vec![],
    )
    .unwrap();

    assert_eq!(tables.keyform_binding_band_indices(), &[0, 0]);
    assert_eq!(tables.parent_deformer_indices(), &[-1, -1]);
    assert_eq!(tables.render_orders(), &[0, 1]);
    assert_eq!(tables.uv_xys(), &[7, 8]);
    assert!(tables.position_indices().is_empty());
    assert!(tables.drawable_masks().is_empty());
}

#[test]
fn rejects_art_mesh_ranges_outside_their_pools() {
    assert!(is_invalid_moc3(Moc3ArtMeshes::from_parts(vec![mesh(1, 1, 0, 0, 0, 0)], vec![1, 2], vec![], vec![])));
    assert!(is_invalid_moc3(Moc3ArtMeshes::from_parts(vec![mesh(0, -1, 0, 0, 0, 0)], vec![1, 2], vec![], vec![])));
    assert!(is_invalid_moc3(Moc3ArtMeshes::from_parts(vec![mesh(0, 0, 0, 2, 0, 0)], vec![], vec![0], vec![])));
    assert!(is_invalid_moc3(Moc3ArtMeshes::from_parts(vec![mesh(0, 0, -1, 0, 0, 0)], vec![], vec![], vec![])));
    assert!(is_invalid_moc3(Moc3ArtMeshes::from_parts(vec![mesh(0, 0, 0, 0, 0, 1)], vec![], vec![], vec![])));
    assert!(is_invalid_moc3(Moc3ArtMeshes::from_parts_with_hierarchy(
        vec![mesh(0, 0, 0, 0, 0, 0)],
        vec![],
        vec![-1],
        vec![],
        vec![],
        vec![],
    )));
}

#[test]
fn keyform_tables_expose_each_keyform() {
    let keyforms = Moc3ArtMeshKeyforms::from_parts(
        vec![0, 2],
        vec![2, 1],
        vec![1, 2],
        vec![
            Moc3ArtMeshKeyformInfo::new(1, 2, 0),
            Moc3ArtMeshKeyformInfo::new(3, 4, 2),
            Moc3ArtMeshKeyformInfo::new(5, 6, 4),
        ],
        vec![10, 11, 12, 13, 14, 15, 16, 17],
    )
    .unwrap();

    assert_eq!(keyforms.keyforms().len(), 3);
    assert_eq!(keyforms.position_xys().len(), 8);
    assert_eq!(keyforms.art_mesh_keyforms(0).map(|k| k.len()), Some(2));
    assert_eq!(keyforms.art_mesh_keyforms(1).map(|k| k[0].opacity()), Some(5));
    assert!(keyforms.art_mesh_keyforms(2).is_none());
    assert_eq!(keyforms.art_mesh_keyform_positions(0, 1), Some(&[12, 13][..]));
    assert_eq!(keyforms.art_mesh_keyform_positions(1, 0), Some(&[14, 15, 16, 17][..]));
    assert_eq!(keyforms.art_mesh_keyform_positions(1, 1), None);
    assert_eq!(keyforms.art_mesh_keyform_positions(3, 0), None);
}

#[test]
fn rejects_keyform_ranges_outside_their_pools() {
    let keyform = Moc3ArtMeshKeyformInfo::new(1, 2, 0);
    assert!(is_invalid_moc3(Moc3ArtMeshKeyforms::from_parts(vec![0], vec![2], vec![1], vec![keyform], vec![0, 0])));
    assert!(is_invalid_moc3(Moc3ArtMeshKeyforms::from_parts(vec![0], vec![1], vec![2], vec![keyform], vec![0, 0])));
    assert!(is_invalid_moc3(Moc3ArtMeshKeyforms::from_parts(vec![-1], vec![1], vec![1], vec![keyform], vec![0, 0])));
    assert!(is_invalid_moc3(Moc3ArtMeshKeyforms::from_parts(vec![0], vec![1], vec![], vec![keyform], vec![0, 0])));
}

#[test]
fn reads_boolean_sections_as_nonzero_words() {
    let mut bytes = vec![0u8; 4];
    for word in [0u32, 1, 0x100, 0x8000_0000] {
        bytes.extend_from_slice(&word.to_le_bytes());
    }
    let offsets = Moc3SectionOffsets::from_offsets(vec![4]);

    assert_eq!(
        read_bool_section(&bytes, &offsets, 0, 4, Endianness::Little).unwrap(),
        vec![false, true, true, true]
    );
    assert!(is_invalid_moc3(read_bool_section(&bytes, &offsets, 0, 5, Endianness::Little)));
    assert_eq!(read_bool_section(&bytes, &offsets, 3, 0, Endianness::Big).unwrap(), Vec::<bool>::new());
}

fn invalid_text(error: Error) -> String {
    match error {
        Error::InvalidMoc3 { message } => message,
        other => panic!("unexpected error {other:?}"),
    }
}

#[test]
fn keyform_errors_name_the_mesh_and_range() {
    let error = Moc3ArtMeshKeyforms::from_parts(
        vec![0, 1],
        vec![1, 1],
        vec![1, 1],
        vec![
            Moc3ArtMeshKeyformInfo::new(0, 0, 0),
            Moc3ArtMeshKeyformInfo::new(0, 0, 3),
        ],
        vec![0; 4],
    )
    .unwrap_err();
    assert_eq!(invalid_text(error), "art mesh 1 keyform position range is outside section");

    let error = Moc3ArtMeshKeyforms::from_parts(vec![0], vec![2], vec![1], vec![], vec![]).unwrap_err();
    assert_eq!(invalid_text(error), "art mesh 0 keyform range is outside section");

    let error = Moc3ArtMeshKeyforms::from_parts(vec![0], vec![], vec![1], vec![], vec![]).unwrap_err();
    assert_eq!(invalid_text(error), "art mesh keyform metadata lengths do not match");
}

#[test]
fn keyform_parse_errors_name_the_first_missing_section() {
    let empty = Moc3SectionOffsets::from_offsets(vec![0; 160]);
    let error = Moc3ArtMeshKeyforms::parse(&[], Endianness::Little, &empty, 1, 0, 0).unwrap_err();
    assert_eq!(invalid_text(error), "section slot 35 has no offset");
}
