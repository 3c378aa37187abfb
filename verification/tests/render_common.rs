use rusty_live2d::render::clipping::{
    WgpuClippingLayout, WgpuClippingLayoutError, WgpuClippingPlan, WgpuClippingResources,
    WgpuMaskChannel, WgpuPreparedClippingContext, same_mask_set,
};

/// The rectangle of the mask texture a layout cell covers, as
/// `(x, y, width, height)`.
fn cell_bounds(layout: WgpuClippingLayout) -> (f32, f32, f32, f32) {
    let index = layout.cell_index();
    match layout.cell_count() {
        0 => (0.0, 0.0, 0.0, 0.0),
        1 => (0.0, 0.0, 1.0, 1.0),
        2 => (index as f32 * 0.5, 0.0, 0.5, 1.0),
        3 | 4 => ((index % 2) as f32 * 0.5, (index / 2) as f32 * 0.5, 0.5, 0.5),
        _ => (
            (index % 3) as f32 / 3.0,
            (index / 3) as f32 / 3.0,
            1.0 / 3.0,
            1.0 / 3.0,
        ),
    }
}

#[test]
fn builds_clipping_plan_from_masked_drawables() {
    let masks = vec![vec![1, 2], vec![], vec![1, 2], vec![3]];

    let plan = WgpuClippingPlan::from_drawable_masks(&masks);

    assert_eq!(plan.unmasked_drawable_indices(), &[1]);
    assert_eq!(plan.contexts().len(), 2);
    assert_eq!(plan.contexts()[0].masks(), &[1, 2]);
    assert_eq!(plan.contexts()[0].drawable_indices(), &[0, 2]);
    assert_eq!(plan.contexts()[1].masks(), &[3]);
    assert_eq!(plan.contexts()[1].drawable_indices(), &[3]);
}

#[test]
fn merges_clipping_contexts_with_same_mask_set_regardless_of_order() {
    let masks = vec![vec![1, 2], vec![2, 1]];

    let plan = WgpuClippingPlan::from_drawable_masks(&masks);

    assert_eq!(plan.contexts().len(), 1);
    assert_eq!(plan.contexts()[0].masks(), &[1, 2]);
    assert_eq!(plan.contexts()[0].drawable_indices(), &[0, 1]);
}

#[test]
fn assigns_single_texture_clipping_layouts_by_channel_and_cell() {
    let masks = vec![vec![10], vec![11], vec![12], vec![13], vec![14]];
    let mut plan = WgpuClippingPlan::from_drawable_masks(&masks);

    plan.assign_single_texture_layouts().unwrap();

    assert_eq!(
        plan.contexts()[0].layout().unwrap().channel(),
        WgpuMaskChannel::Red
    );
    assert_eq!(
        cell_bounds(plan.contexts()[0].layout().unwrap()),
        (0.0, 0.0, 0.5, 1.0)
    );
    assert_eq!(
        plan.contexts()[1].layout().unwrap().channel(),
        WgpuMaskChannel::Red
    );
    assert_eq!(
        cell_bounds(plan.contexts()[1].layout().unwrap()),
        (0.5, 0.0, 0.5, 1.0)
    );
    assert_eq!(
        plan.contexts()[2].layout().unwrap().channel(),
        WgpuMaskChannel::Green
    );
    assert_eq!(
        cell_bounds(plan.contexts()[2].layout().unwrap()),
        (0.0, 0.0, 1.0, 1.0)
    );
    assert_eq!(
        plan.contexts()[4].layout().unwrap().channel(),
        WgpuMaskChannel::Alpha
    );
}

#[test]
fn rejects_more_than_single_texture_clipping_layout_capacity() {
    let masks = (0..37).map(|index| vec![index]).collect::<Vec<_>>();
    let mut plan = WgpuClippingPlan::from_drawable_masks(&masks);

    let error = plan.assign_single_texture_layouts().unwrap_err();

    assert_eq!(
        error,
        WgpuClippingLayoutError::TooManyMasksForSingleTexture { mask_count: 37 }
    );
    assert!(plan.contexts().iter().all(|context| context.layout().is_none()));
}

#[test]
fn thirty_six_contexts_fill_every_cell_exactly_once() {
    let masks = (0..36).map(|index| vec![index]).collect::<Vec<_>>();
    let mut plan = WgpuClippingPlan::from_drawable_masks(&masks);

    plan.assign_single_texture_layouts().unwrap();

    let mut cells = plan
        .contexts()
        .iter()
        .map(|context| {
            let layout = context.layout().unwrap();
            assert_eq!(layout.cell_count(), 9);
            (layout.channel().index(), layout.cell_index())
        })
        .collect::<Vec<_>>();
    cells.sort();
    cells.dedup();
    assert_eq!(cells.len(), 36);
}

#[test]
fn six_contexts_split_two_two_one_one() {
    let masks = (0..6).map(|index| vec![index]).collect::<Vec<_>>();
    let mut plan = WgpuClippingPlan::from_drawable_masks(&masks);

    plan.assign_single_texture_layouts().unwrap();

    let layouts = plan
        .contexts()
        .iter()
        .map(|context| {
            let layout = context.layout().unwrap();
            (layout.channel(), layout.cell_index(), layout.cell_count())
        })
        .collect::<Vec<_>>();
    assert_eq!(
        layouts,
        vec![
            (WgpuMaskChannel::Red, 0, 2),
            (WgpuMaskChannel::Red, 1, 2),
            (WgpuMaskChannel::Green, 0, 2),
            (WgpuMaskChannel::Green, 1, 2),
            (WgpuMaskChannel::Blue, 0, 1),
            (WgpuMaskChannel::Alpha, 0, 1),
        ]
    );
}

#[test]
fn plan_without_masks_lists_every_drawable_as_unmasked() {
    let masks = vec![vec![], vec![], vec![]];

    let mut plan = WgpuClippingPlan::from_drawable_masks(&masks);

    assert_eq!(plan.unmasked_drawable_indices(), &[0, 1, 2]);
    assert!(plan.contexts().is_empty());
    assert_eq!(plan.assign_single_texture_layouts(), Ok(()));
}

#[test]
fn repeated_masks_count_in_mask_sets() {
    let masks = vec![vec![1, 1, 2], vec![1, 2, 2], vec![2, 1, 1]];

    let plan = WgpuClippingPlan::from_drawable_masks(&masks);

    assert_eq!(plan.contexts().len(), 2);
    assert_eq!(plan.contexts()[0].drawable_indices(), &[0, 2]);
    assert_eq!(plan.contexts()[1].drawable_indices(), &[1]);
}

#[test]
fn same_mask_set_ignores_order_but_not_multiplicity() {
    assert!(same_mask_set(&[1, 2, 3], &[3, 1, 2]));
    assert!(same_mask_set(&[], &[]));
    assert!(!same_mask_set(&[1, 1, 2], &[1, 2, 2]));
    assert!(!same_mask_set(&[1, 2], &[1, 2, 3]));
    assert!(!same_mask_set(&[4], &[5]));
}

#[test]
fn mask_channels_have_rgba_positions() {
    assert_eq!(WgpuMaskChannel::Red.index(), 0);
    assert_eq!(WgpuMaskChannel::Green.index(), 1);
    assert_eq!(WgpuMaskChannel::Blue.index(), 2);
    assert_eq!(WgpuMaskChannel::Alpha.index(), 3);
}

#[test]
fn finds_first_prepared_context_clipping_a_drawable() {
    let resources = WgpuClippingResources::new(vec![
        WgpuPreparedClippingContext::new(vec![4], vec![0, 2], "first"),
        WgpuPreparedClippingContext::new(vec![5], vec![1, 2], "second"),
    ]);

    assert_eq!(
        resources.context_for_drawable(2).map(|context| *context.resources()),
        Some("first")
    );
    assert_eq!(
        resources.context_for_drawable(1).map(|context| *context.resources()),
        Some("second")
    );
    assert!(resources.context_for_drawable(3).is_none());
    assert_eq!(resources.contexts()[1].mask_drawable_indices(), &[5]);
    assert_eq!(resources.contexts()[0].drawable_indices(), &[0, 2]);
}

#[test]
fn mask_render_target_keeps_its_parts() {
    let target = rusty_live2d::render::clipping::WgpuMaskRenderTarget::new("texture", 1u8, 'g', 256, 128);
    assert_eq!(*target.texture(), "texture");
    assert_eq!(*target.view(), 1);
    assert_eq!(*target.bind_group(), 'g');
    assert_eq!((target.width(), target.height()), (256, 128));
}

#[test]
fn clipping_layout_errors_describe_themselves() {
    assert_eq!(
        WgpuClippingLayoutError::TooManyMasksForSingleTexture { mask_count: 37 }.message(),
        "single mask texture supports at most 36 clipping contexts, got 37"
    );
    assert_eq!(
        WgpuClippingLayoutError::MissingDrawableBounds { drawable_index: 4 }.message(),
        "drawable 4 has no clipping bounds"
    );
    assert_eq!(
        WgpuClippingLayoutError::MissingLayout { context_index: 0 }.message(),
        "clipping context 0 has no layout"
    );
    assert_eq!(
        WgpuClippingLayoutError::MissingMaskMatrix { context_index: 2 }.message(),
        "clipping context 2 has no mask matrix"
    );
    assert_eq!(
        WgpuClippingLayoutError::MissingDrawMatrix { context_index: 3 }.message(),
        "clipping context 3 has no draw matrix"
    );
    assert_eq!(
        WgpuClippingLayoutError::InvalidMaskDrawableIndex { drawable_index: -2 }.message(),
        "invalid mask drawable index -2"
    );
    assert_eq!(
        WgpuClippingLayoutError::DegenerateClippedBounds { context_index: 11 }.message(),
        "clipping context 11 has degenerate clipped bounds"
    );
}
