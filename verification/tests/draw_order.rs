use std::cmp::Ordering;

use rusty_live2d::moc3::art_meshes::parse_render_orders;
use rusty_live2d::moc3::{Endianness, Moc3SectionOffsets};
use rusty_live2d::render::wgpu::{draw_order_indices, ranked_draw_order_indices};

fn bits(values: &[f32]) -> Vec<u32> {
    values.iter().map(|v| v.to_bits()).collect()
}

fn std_draw_order(values: &[f32]) -> Vec<usize> {
    let mut indices: Vec<usize> = (0..values.len()).collect();
    indices.sort_by(|left, right| match values[*left].total_cmp(&values[*right]) {
        Ordering::Equal => left.cmp(right),
        other => other,
    });
    indices
}

#[test]
fn draws_by_draw_order_then_list_order() {
    let orders = [2.0, -1.0, 2.0, -0.0, 0.0, f32::NAN, -2.0, 500.0];
    let indices = draw_order_indices(&bits(&orders));

    assert_eq!(indices, vec![6, 1, 3, 4, 0, 2, 7, 5]);
    assert_eq!(indices, std_draw_order(&orders));
}

#[test]
fn draw_order_of_nothing_is_empty() {
    assert!(draw_order_indices(&[]).is_empty());
}

#[test]
fn draw_order_follows_the_float_total_order() {
    let orders = [
        f32::INFINITY,
        -f32::INFINITY,
        1.5,
        -f32::NAN,
        1.25,
        0.0,
        f32::MIN_POSITIVE,
        -0.5,
        1.5,
    ];
    assert_eq!(draw_order_indices(&bits(&orders)), std_draw_order(&orders));
}

fn offsets_with_render_order_section(bytes: &mut Vec<u8>, ranks: &[i32]) -> Moc3SectionOffsets {
    let mut slots = vec![0u32; 100];
    slots[87] = bytes.len() as u32;
    for rank in ranks {
        bytes.extend_from_slice(&rank.to_le_bytes());
    }
    Moc3SectionOffsets::from_offsets(slots)
}

#[test]
fn last_naming_of_a_mesh_sets_its_render_order() {
    let mut bytes = vec![0u8; 8];
    let offsets = offsets_with_render_order_section(&mut bytes, &[2, 0, 2, -1, 7]);

    assert_eq!(
        parse_render_orders(&bytes, &offsets, 5, 3, Endianness::Little).unwrap(),
        vec![1, 1, 2]
    );
}

#[test]
fn meshes_keep_their_own_index_without_draw_order_groups() {
    let mut bytes = vec![0u8; 8];
    let offsets = offsets_with_render_order_section(&mut bytes, &[2, 0]);

    assert_eq!(
        parse_render_orders(&bytes, &offsets, 0, 3, Endianness::Little).unwrap(),
        vec![0, 1, 2]
    );
    assert!(parse_render_orders(&bytes, &offsets, 3, 3, Endianness::Little).is_err());
}

/// The draw order key the host computes: the Cubism core's integer draw
/// order (biased, truncated and kept within `0 ..= 1000`).
fn key(draw_order: f32) -> i64 {
    i64::from(((draw_order + 0.001) as i32).clamp(0, 1000))
}

fn keys(draw_orders: &[f32]) -> Vec<i64> {
    draw_orders.iter().map(|d| key(*d)).collect()
}

#[test]
fn draw_order_indices_sort_by_quantized_order_then_render_rank() {
    let draw_orders = [30.0, 10.0, 10.0];
    let render_orders = [0, 1, 2];

    assert_eq!(ranked_draw_order_indices(&keys(&draw_orders), &render_orders), vec![1, 2, 0]);
}

#[test]
fn draw_order_indices_use_render_order_rank_to_break_ties() {
    let draw_orders = [650.0, 650.0, 600.0];
    let render_orders = [70, 49, 90];

    assert_eq!(ranked_draw_order_indices(&keys(&draw_orders), &render_orders), vec![2, 1, 0]);
}

#[test]
fn draw_order_indices_quantize_to_avoid_flicker() {
    let jittered = [499.9998, 500.0001];
    let exact = [500.0, 500.0];
    let render_orders = [70, 49];

    assert_eq!(ranked_draw_order_indices(&keys(&jittered), &render_orders), vec![1, 0]);
    assert_eq!(
        ranked_draw_order_indices(&keys(&jittered), &render_orders),
        ranked_draw_order_indices(&keys(&exact), &render_orders)
    );
}

#[test]
fn equal_keys_and_render_orders_keep_list_order() {
    assert_eq!(ranked_draw_order_indices(&[5, 5, 4, 5], &[1, 1, 9, 0]), vec![2, 3, 0, 1]);
    assert!(ranked_draw_order_indices(&[], &[]).is_empty());
}
