use rusty_live2d::moc3::{Moc3DrawableBlendMode, Moc3DrawableMesh, Moc3DrawableVertex};
use rusty_live2d::render::common::{
    DRAWABLE_VERTEX_STRIDE, DrawableVertex, F32_ONE_BITS, encode_indices, encode_vertices,
    vertices_from_drawable,
};
use rusty_live2d::render::wgpu::{
    WgpuDrawableBuffers, WgpuDrawableVertex, WgpuMeshUpdateError, WgpuRenderError,
    encode_wgpu_indices, encode_wgpu_vertices, wgpu_vertices_from_drawable,
    live2d_wgsl_source, texture_bind_group_index, validate_count, validate_drawable_update,
    validate_mesh_update, validate_unchanged,
};
use rusty_live2d::render::renderer::{WgpuDrawCommand, WgpuMeshBuffers, WgpuVertexWrite};

fn vertex(x: f32, y: f32) -> Moc3DrawableVertex {
    Moc3DrawableVertex::new([x.to_bits(), y.to_bits()], [0.0f32.to_bits(), 1.0f32.to_bits()])
}

fn mesh(texture_index: i32, flags: u8, opacity: f32, indices: Vec<u16>, masks: Vec<i32>) -> Moc3DrawableMesh {
    Moc3DrawableMesh::from_parts_with_render_order(
        texture_index,
        flags,
        opacity.to_bits(),
        0.5f32.to_bits(),
        2,
        vec![vertex(0.0, 0.0), vertex(1.0, 0.0), vertex(0.0, 1.0)],
        indices,
        masks,
    )
}

fn base_mesh() -> Moc3DrawableMesh {
    mesh(1, 0, 1.0, vec![0, 1, 2], vec![4])
}

fn buffers(mesh: &Moc3DrawableMesh) -> WgpuDrawableBuffers<&'static str> {
    WgpuDrawableBuffers::new("vertices", "indices", mesh, None).unwrap()
}

#[test]
fn encodes_wgpu_indices_in_native_byte_order() {
    let indices = [1u16, 0x0203, 0xfffe];
    let expected: Vec<u8> = indices.iter().flat_map(|i| i.to_ne_bytes()).collect();
    assert_eq!(encode_wgpu_indices(&indices), expected);
    assert_eq!(encode_indices(&indices), expected);
    assert!(encode_wgpu_indices(&[]).is_empty());
}

#[test]
fn selects_the_texture_bind_group_of_a_drawable() {
    assert_eq!(texture_bind_group_index(1, 2), Ok(1));
    assert_eq!(texture_bind_group_index(0, 1), Ok(0));
    assert_eq!(
        texture_bind_group_index(-1, 2),
        Err(WgpuRenderError::InvalidTextureIndex { texture_index: -1 })
    );
    assert_eq!(
        texture_bind_group_index(2, 2),
        Err(WgpuRenderError::MissingTexture { texture_index: 2 })
    );
}

#[test]
fn shader_source_declares_both_entry_points() {
    let source = live2d_wgsl_source();
    assert!(source.contains("fn vs_main"));
    assert!(source.contains("fn fs_main"));
}

#[test]
fn validates_counts_and_unchanged_values() {
    let error = WgpuMeshUpdateError::Indices { drawable_index: 3 };
    assert_eq!(validate_count(2, 2, error.clone()), Ok(()));
    assert_eq!(validate_count(2, 3, error.clone()), Err(error.clone()));
    assert_eq!(validate_unchanged(&5i32, &5i32, error.clone()), Ok(()));
    assert_eq!(validate_unchanged(&5i32, &6i32, error.clone()), Err(error));
}

#[test]
fn drawable_buffers_keep_the_state_of_their_mesh() {
    let inverted = mesh(3, 8 | 1, 0.25, vec![0, 1, 2], vec![1, 2]);
    let drawable = WgpuDrawableBuffers::new(7u8, 9u8, &inverted, Some([1, 2, 3, 4])).unwrap();

    assert_eq!(*drawable.vertex_buffer(), 7);
    assert_eq!(*drawable.index_buffer(), 9);
    assert_eq!(drawable.index_count(), 3);
    assert!(!drawable.is_empty());
    assert_eq!(drawable.texture_index(), 3);
    assert_eq!(drawable.blend_mode(), Moc3DrawableBlendMode::Additive);
    assert_eq!(drawable.opacity(), 0.25f32.to_bits());
    assert_eq!(drawable.draw_order(), 0.5f32.to_bits());
    assert_eq!(drawable.render_order(), 2);
    assert_eq!(drawable.masks(), &[1, 2]);
    assert!(drawable.inverted_mask());
    assert!(inverted.is_inverted_mask());
    assert!(!base_mesh().is_inverted_mask());
    assert_eq!(drawable.bounds(), Some([1, 2, 3, 4]));

    let empty = mesh(0, 0, 1.0, vec![], vec![]);
    assert!(buffers(&empty).is_empty());
}

#[test]
fn accepts_an_unchanged_mesh_update() {
    let unchanged = base_mesh();
    let drawable = buffers(&unchanged);
    let moved = mesh(1, 0, 0.5, vec![0, 1, 2], vec![4]);

    assert_eq!(validate_drawable_update(0, &drawable, &unchanged), Ok(()));
    assert_eq!(validate_drawable_update(0, &drawable, &moved), Ok(()));
}

#[test]
fn rejects_mesh_updates_that_need_new_buffers() {
    let drawable = buffers(&base_mesh());

    let fewer_vertices = Moc3DrawableMesh::from_parts_with_render_order(
        1,
        0,
        1.0f32.to_bits(),
        0.5f32.to_bits(),
        2,
        vec![vertex(0.0, 0.0)],
        vec![0, 1, 2],
        vec![4],
    );
    assert_eq!(
        validate_drawable_update(4, &drawable, &fewer_vertices),
        Err(WgpuMeshUpdateError::VertexCount { drawable_index: 4, expected: 3, actual: 1 })
    );
    assert_eq!(
        validate_drawable_update(4, &drawable, &mesh(1, 0, 1.0, vec![0, 1], vec![4])),
        Err(WgpuMeshUpdateError::IndexCount { drawable_index: 4, expected: 3, actual: 2 })
    );
    assert_eq!(
        validate_drawable_update(4, &drawable, &mesh(1, 0, 1.0, vec![0, 2, 1], vec![4])),
        Err(WgpuMeshUpdateError::Indices { drawable_index: 4 })
    );
    assert_eq!(
        validate_drawable_update(4, &drawable, &mesh(2, 0, 1.0, vec![0, 1, 2], vec![4])),
        Err(WgpuMeshUpdateError::TextureIndex { drawable_index: 4, expected: 1, actual: 2 })
    );
    assert_eq!(
        validate_drawable_update(4, &drawable, &mesh(1, 2, 1.0, vec![0, 1, 2], vec![4])),
        Err(WgpuMeshUpdateError::BlendMode {
            drawable_index: 4,
            expected: Moc3DrawableBlendMode::Normal,
            actual: Moc3DrawableBlendMode::Multiplicative,
        })
    );
    assert_eq!(
        validate_drawable_update(4, &drawable, &mesh(1, 0, 1.0, vec![0, 1, 2], vec![5])),
        Err(WgpuMeshUpdateError::Masks { drawable_index: 4 })
    );
    assert_eq!(
        validate_drawable_update(4, &drawable, &mesh(1, 8, 1.0, vec![0, 1, 2], vec![4])),
        Err(WgpuMeshUpdateError::InvertedMask { drawable_index: 4, expected: false, actual: true })
    );
}

#[test]
fn reports_the_first_drawable_whose_update_fails() {
    let drawables = vec![buffers(&base_mesh()), buffers(&base_mesh()), buffers(&base_mesh())];
    let meshes = vec![
        base_mesh(),
        mesh(1, 0, 1.0, vec![0, 1, 2], vec![]),
        mesh(9, 0, 1.0, vec![0, 1, 2], vec![4]),
    ];

    assert_eq!(
        validate_mesh_update(&drawables, &meshes),
        Err(WgpuMeshUpdateError::Masks { drawable_index: 1 })
    );
    assert_eq!(
        validate_mesh_update(&drawables, &meshes[..2]),
        Err(WgpuMeshUpdateError::DrawableCount { expected: 3, actual: 2 })
    );
    assert_eq!(
        validate_mesh_update(&drawables, &[base_mesh(), base_mesh(), base_mesh()]),
        Ok(())
    );
}

#[test]
fn refreshing_drawable_state_keeps_buffers_and_indices() {
    let mut drawable = buffers(&base_mesh());
    drawable.refresh_from_mesh(&mesh(5, 2, 0.75, vec![2, 1, 0], vec![]), Some([0, 0, 1, 1]));

    assert_eq!(*drawable.vertex_buffer(), "vertices");
    assert_eq!(drawable.index_count(), 3);
    assert_eq!(drawable.texture_index(), 5);
    assert_eq!(drawable.blend_mode(), Moc3DrawableBlendMode::Multiplicative);
    assert_eq!(drawable.opacity(), 0.75f32.to_bits());
    assert!(drawable.masks().is_empty());
    assert_eq!(drawable.bounds(), Some([0, 0, 1, 1]));
    assert_eq!(
        validate_drawable_update(0, &drawable, &base_mesh()),
        Err(WgpuMeshUpdateError::TextureIndex { drawable_index: 0, expected: 5, actual: 1 })
    );
}

#[test]
fn encodes_wgpu_vertices_and_indices() {
    // Built with its render order given, as `from_parts` derives it from the
    // draw order.
    let mesh = Moc3DrawableMesh::from_parts_with_render_order(
        3,
        4,
        0.75f32.to_bits(),
        20.0f32.to_bits(),
        20,
        vec![
            Moc3DrawableVertex::new([1.0f32.to_bits(), 2.0f32.to_bits()], [0.25f32.to_bits(), 0.5f32.to_bits()]),
            Moc3DrawableVertex::new([3.0f32.to_bits(), 4.0f32.to_bits()], [0.75f32.to_bits(), 1.0f32.to_bits()]),
        ],
        vec![0, 1],
        vec![7],
    );

    let vertices = wgpu_vertices_from_drawable(&mesh);
    let vertex_bytes = encode_wgpu_vertices(&vertices);
    let index_bytes = encode_wgpu_indices(mesh.indices());

    assert_eq!(
        vertices,
        vec![
            WgpuDrawableVertex::new([1.0f32.to_bits(), 2.0f32.to_bits()], [0.25f32.to_bits(), 0.5f32.to_bits()], 0.75f32.to_bits()),
            WgpuDrawableVertex::new([3.0f32.to_bits(), 4.0f32.to_bits()], [0.75f32.to_bits(), 1.0f32.to_bits()], 0.75f32.to_bits()),
        ]
    );
    assert_eq!(vertex_bytes.len(), 40);
    assert_eq!(&vertex_bytes[0..4], &1.0f32.to_ne_bytes());
    assert_eq!(&vertex_bytes[12..16], &0.5f32.to_ne_bytes());
    assert_eq!(&vertex_bytes[16..20], &0.75f32.to_ne_bytes());
    assert_eq!(index_bytes, vec![0, 0, 1, 0]);
}

#[test]
fn encodes_shared_layout_vertices_with_colors() {
    let plain = DrawableVertex::new([1, 2], [3, 4], 5);
    assert_eq!(plain.multiply(), [1.0f32.to_bits(); 3]);
    assert_eq!(plain.screen(), [0; 3]);
    let colored = DrawableVertex::with_colors([1, 2], [3, 4], 5, [6, 7, 8], [9, 10, 11]);
    assert_eq!((colored.position(), colored.uv(), colored.opacity()), ([1, 2], [3, 4], 5));

    let bytes = encode_vertices(&[plain, colored]);
    assert_eq!(bytes.len(), 2 * DRAWABLE_VERTEX_STRIDE);
    let expected: Vec<u8> = [1u32, 2, 3, 4, 5]
        .iter()
        .chain(plain.multiply().iter())
        .chain(plain.screen().iter())
        .chain([1u32, 2, 3, 4, 5, 6, 7, 8, 9, 10, 11].iter())
        .flat_map(|word| word.to_ne_bytes())
        .collect();
    assert_eq!(bytes, expected);
    assert_eq!(&bytes[20..24], &1.0f32.to_ne_bytes());
}

#[test]
fn refreshed_buffers_accept_the_mesh_they_took_over() {
    let mut drawable = buffers(&base_mesh());
    let moved = mesh(1, 0, 0.5, vec![0, 1, 2], vec![4]);
    assert_eq!(validate_drawable_update(0, &drawable, &moved), Ok(()));

    drawable.refresh_from_mesh(&moved, None);

    assert_eq!(validate_drawable_update(0, &drawable, &moved), Ok(()));
    assert_eq!(drawable.opacity(), 0.5f32.to_bits());
    assert_eq!(drawable.bounds(), None);
}

#[test]
fn mesh_buffers_draw_in_draw_order() {
    let at = |draw_order: f32| {
        Moc3DrawableMesh::from_parts_with_render_order(
            0,
            0,
            1.0f32.to_bits(),
            draw_order.to_bits(),
            0,
            vec![],
            vec![],
            vec![],
        )
    };
    let drawables = vec![buffers(&at(3.0)), buffers(&at(-1.0)), buffers(&at(3.0)), buffers(&at(0.5))];
    let mesh_buffers = WgpuMeshBuffers::from_drawables(drawables, vec![3, -1, 3, 1]);

    assert_eq!(mesh_buffers.draw_order_indices(), &[1, 3, 0, 2]);
    assert_eq!(mesh_buffers.draw_order_keys(), &[3, -1, 3, 1]);
    assert_eq!(mesh_buffers.drawables().len(), 4);
    assert_eq!(mesh_buffers.drawables()[3].draw_order(), 0.5f32.to_bits());
}

#[test]
fn shared_layout_vertex_takes_the_mesh_vertex_and_colors() {
    let v = rusty_live2d::render::common::vertex_from_drawable_vertex(&vertex(1.0, 2.0), 7, [1, 2, 3], [4, 5, 6]);
    assert_eq!(v.position(), [1.0f32.to_bits(), 2.0f32.to_bits()]);
    assert_eq!(v.uv(), [0.0f32.to_bits(), 1.0f32.to_bits()]);
    assert_eq!(v.opacity(), 7);
    assert_eq!(v.multiply(), [1, 2, 3]);
    assert_eq!(v.screen(), [4, 5, 6]);
}

fn drawn_mesh(texture_index: i32, draw_order: f32, indices: Vec<u16>) -> Moc3DrawableMesh {
    Moc3DrawableMesh::from_parts_with_render_order(
        texture_index,
        0,
        1.0f32.to_bits(),
        draw_order.to_bits(),
        0,
        vec![vertex(0.0, 0.0), vertex(1.0, 0.0), vertex(0.0, 1.0)],
        indices,
        vec![],
    )
}

#[test]
fn plans_draw_commands_in_draw_order() {
    let mesh_buffers = WgpuMeshBuffers::from_drawables(
        vec![
            buffers(&drawn_mesh(1, 2.0, vec![0, 1, 2])),
            buffers(&drawn_mesh(0, 1.0, vec![0, 1, 2, 2, 1, 0])),
        ],
        vec![2, 1],
    );

    let (commands, outcome) = mesh_buffers.draw_commands(2);
    assert_eq!(outcome, Ok(2));
    assert_eq!(
        commands,
        vec![
            WgpuDrawCommand { drawable_index: 1, bind_group_index: 0, index_count: 6 },
            WgpuDrawCommand { drawable_index: 0, bind_group_index: 1, index_count: 3 },
        ]
    );

    let (commands, outcome) = mesh_buffers.draw_commands(1);
    assert_eq!(outcome, Err(WgpuRenderError::MissingTexture { texture_index: 1 }));
    assert_eq!(
        commands,
        vec![WgpuDrawCommand { drawable_index: 1, bind_group_index: 0, index_count: 6 }]
    );
}

#[test]
fn plans_vertex_writes_for_updated_meshes() {
    let mut mesh_buffers = WgpuMeshBuffers::from_drawables(
        vec![
            buffers(&drawn_mesh(0, 2.0, vec![0, 1, 2])),
            buffers(&drawn_mesh(0, 1.0, vec![0, 1, 2])),
        ],
        vec![2, 1],
    );
    let moved = vec![drawn_mesh(0, 0.5, vec![0, 1, 2]), drawn_mesh(0, 3.0, vec![0, 1, 2])];

    let writes = mesh_buffers
        .update_drawables(&moved, &[None, Some([1, 2, 3, 4])], vec![1, 3])
        .unwrap();

    assert_eq!(
        writes,
        vec![
            WgpuVertexWrite {
                drawable_index: 0,
                offset: 0,
                bytes: encode_vertices(&vertices_from_drawable(&moved[0])),
            },
            WgpuVertexWrite {
                drawable_index: 1,
                offset: 0,
                bytes: encode_vertices(&vertices_from_drawable(&moved[1])),
            },
        ]
    );
    assert_eq!(writes[0].bytes.len(), 3 * DRAWABLE_VERTEX_STRIDE);
    assert_eq!(mesh_buffers.draw_order_indices(), &[0, 1]);
    assert_eq!(mesh_buffers.draw_order_keys(), &[1, 3]);
    assert_eq!(mesh_buffers.drawables()[1].bounds(), Some([1, 2, 3, 4]));
    assert_eq!(*mesh_buffers.drawables()[0].vertex_buffer(), "vertices");
}

#[test]
fn rejected_updates_change_nothing_and_plan_no_writes() {
    let mut mesh_buffers =
        WgpuMeshBuffers::from_drawables(vec![buffers(&drawn_mesh(0, 2.0, vec![0, 1, 2]))], vec![2]);

    assert_eq!(
        mesh_buffers.update_drawables(&[drawn_mesh(3, 2.0, vec![0, 1, 2])], &[None], vec![9]),
        Err(WgpuMeshUpdateError::TextureIndex { drawable_index: 0, expected: 0, actual: 3 })
    );
    assert_eq!(
        mesh_buffers.update_drawables(&[], &[], vec![]),
        Err(WgpuMeshUpdateError::DrawableCount { expected: 1, actual: 0 })
    );
    assert_eq!(mesh_buffers.drawables()[0].texture_index(), 0);
    assert_eq!(mesh_buffers.draw_order_indices(), &[0]);
    assert_eq!(mesh_buffers.draw_order_keys(), &[2]);
}

#[test]
fn render_errors_describe_themselves() {
    assert_eq!(
        WgpuRenderError::InvalidTextureIndex { texture_index: -3 }.message(),
        "invalid texture index -3"
    );
    assert_eq!(
        WgpuRenderError::MissingTexture { texture_index: 12 }.message(),
        "missing texture bind group 12"
    );
}

#[test]
fn mesh_update_errors_describe_themselves() {
    assert_eq!(
        WgpuMeshUpdateError::DrawableCount { expected: 10, actual: 9 }.message(),
        "drawable count changed from 10 to 9"
    );
    assert_eq!(
        WgpuMeshUpdateError::VertexCount { drawable_index: 2, expected: 4, actual: 105 }.message(),
        "drawable 2 vertex count changed from 4 to 105"
    );
    assert_eq!(
        WgpuMeshUpdateError::IndexCount { drawable_index: 0, expected: 6, actual: 3 }.message(),
        "drawable 0 index count changed from 6 to 3"
    );
    assert_eq!(
        WgpuMeshUpdateError::Indices { drawable_index: 7 }.message(),
        "drawable 7 indices changed"
    );
    assert_eq!(
        WgpuMeshUpdateError::TextureIndex { drawable_index: 1, expected: 0, actual: -1 }.message(),
        "drawable 1 texture index changed from 0 to -1"
    );
    assert_eq!(
        WgpuMeshUpdateError::BlendMode {
            drawable_index: 3,
            expected: Moc3DrawableBlendMode::Normal,
            actual: Moc3DrawableBlendMode::Multiplicative,
        }
        .message(),
        "drawable 3 blend mode changed from Normal to Multiplicative"
    );
    assert_eq!(
        WgpuMeshUpdateError::Masks { drawable_index: 40 }.message(),
        "drawable 40 masks changed"
    );
    assert_eq!(
        WgpuMeshUpdateError::InvertedMask { drawable_index: 5, expected: false, actual: true }
            .message(),
        "drawable 5 inverted mask changed from false to true"
    );
}

#[test]
fn an_accepted_update_is_accepted_again() {
    let mut mesh_buffers = WgpuMeshBuffers::from_drawables(
        vec![
            buffers(&drawn_mesh(0, 2.0, vec![0, 1, 2])),
            buffers(&drawn_mesh(1, 1.0, vec![0, 1, 2, 2, 1, 0])),
        ],
        vec![2, 1],
    );
    let moved = vec![drawn_mesh(0, 5.0, vec![0, 1, 2]), drawn_mesh(1, 4.0, vec![0, 1, 2, 2, 1, 0])];

    let first = mesh_buffers.update_drawables(&moved, &[None, None], vec![5, 4]).unwrap();
    let second = mesh_buffers.update_drawables(&moved, &[None, None], vec![5, 4]).unwrap();
    assert_eq!(first, second);
    assert_eq!(mesh_buffers.draw_order_indices(), &[1, 0]);
}

#[test]
fn mesh_vertices_take_the_shared_layout_with_neutral_colors() {
    let mesh = drawn_mesh(0, 1.0, vec![0, 1, 2]);
    let vertices = vertices_from_drawable(&mesh);
    assert_eq!(vertices.len(), 3);
    assert_eq!(vertices[1].position(), [1.0f32.to_bits(), 0.0f32.to_bits()]);
    assert_eq!(vertices[1].opacity(), 1.0f32.to_bits());
    assert_eq!(vertices[1].multiply(), [F32_ONE_BITS; 3]);
    assert_eq!(vertices[1].screen(), [0; 3]);
    assert_eq!(encode_vertices(&vertices).len(), 3 * DRAWABLE_VERTEX_STRIDE);
}
