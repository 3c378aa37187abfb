//! Clipping-mask planning: drawables that share the same set of mask
//! drawables form one clipping context, and the contexts are packed into the
//! four colour channels of a single mask texture.
use vstd::prelude::*;

use crate::text::{push_decimal, push_signed_decimal, spec_decimal, spec_signed_decimal};

verus! {

/// A colour channel of the mask texture.
#[derive(Debug, Copy, Clone, PartialEq, Eq)]
pub enum WgpuMaskChannel {
    Red,
    Green,
    Blue,
    Alpha,
}

/// The position of a channel in RGBA order.
pub open spec fn spec_channel_index(channel: WgpuMaskChannel) -> nat {
    match channel {
        WgpuMaskChannel::Red => 0,
        WgpuMaskChannel::Green => 1,
        WgpuMaskChannel::Blue => 2,
        WgpuMaskChannel::Alpha => 3,
    }
}

/// The channel at an RGBA position.
pub open spec fn spec_channel_from_index(index: int) -> Option<WgpuMaskChannel> {
    if index == 0 {
        Some(WgpuMaskChannel::Red)
    } else if index == 1 {
        Some(WgpuMaskChannel::Green)
    } else if index == 2 {
        Some(WgpuMaskChannel::Blue)
    } else if index == 3 {
        Some(WgpuMaskChannel::Alpha)
    } else {
        None
    }
}

impl WgpuMaskChannel {
    /// The position of the channel in RGBA order.
    pub fn index(self) -> (r: usize)
        ensures
            r == spec_channel_index(self),
    {
        match self {
            WgpuMaskChannel::Red => 0,
            WgpuMaskChannel::Green => 1,
            WgpuMaskChannel::Blue => 2,
            WgpuMaskChannel::Alpha => 3,
        }
    }

    fn from_index(index: usize) -> (r: Option<Self>)
        ensures
            r == spec_channel_from_index(index as int),
    {
        match index {
            0 => Some(WgpuMaskChannel::Red),
            1 => Some(WgpuMaskChannel::Green),
            2 => Some(WgpuMaskChannel::Blue),
            3 => Some(WgpuMaskChannel::Alpha),
            _ => None,
        }
    }
}

/// A channel's RGBA position names it again, and the positions are exactly
/// `0..4`.
pub proof fn lemma_channel_index_round_trip(channel: WgpuMaskChannel, index: int)
    ensures
        spec_channel_from_index(spec_channel_index(channel) as int) == Some(channel),
        spec_channel_from_index(index) is Some <==> 0 <= index < 4,
        spec_channel_from_index(index) matches Some(c) ==> spec_channel_index(c) == index,
{
}

/// Why clipping masks could not be laid out.
#[derive(Debug, Clone, PartialEq, Eq)]
pub enum WgpuClippingLayoutError {
    TooManyMasksForSingleTexture { mask_count: usize },
    MissingDrawableBounds { drawable_index: usize },
    MissingLayout { context_index: usize },
    MissingMaskMatrix { context_index: usize },
    MissingDrawMatrix { context_index: usize },
    InvalidMaskDrawableIndex { drawable_index: i32 },
    DegenerateClippedBounds { context_index: usize },
}

/// The text `prefix`, the decimal `n`, then `suffix`.
fn framed_number(prefix: &str, n: usize, suffix: &str) -> (r: String)
    ensures
        r@ == prefix@ + spec_decimal(n as nat) + suffix@,
{
    let mut text = prefix.to_string();
    push_decimal(&mut text, n as u64);
    text.append(suffix);
    text
}

impl WgpuClippingLayoutError {
    /// The text describing the error.
    pub open spec fn spec_message(self) -> Seq<char> {
        match self {
            WgpuClippingLayoutError::TooManyMasksForSingleTexture { mask_count } =>
                "single mask texture supports at most 36 clipping contexts, got "@ + spec_decimal(
                mask_count as nat,
            ),
            WgpuClippingLayoutError::MissingDrawableBounds { drawable_index } => "drawable "@
                + spec_decimal(drawable_index as nat) + " has no clipping bounds"@,
            WgpuClippingLayoutError::MissingLayout { context_index } => "clipping context "@
                + spec_decimal(context_index as nat) + " has no layout"@,
            WgpuClippingLayoutError::MissingMaskMatrix { context_index } => "clipping context "@
                + spec_decimal(context_index as nat) + " has no mask matrix"@,
            WgpuClippingLayoutError::MissingDrawMatrix { context_index } => "clipping context "@
                + spec_decimal(context_index as nat) + " has no draw matrix"@,
            WgpuClippingLayoutError::InvalidMaskDrawableIndex { drawable_index } =>
                "invalid mask drawable index "@ + spec_signed_decimal(drawable_index as int),
            WgpuClippingLayoutError::DegenerateClippedBounds { context_index } =>
                "clipping context "@ + spec_decimal(context_index as nat)
                + " has degenerate clipped bounds"@,
        }
    }

    /// Describes the error in words.
    pub fn message(&self) -> (r: String)
        ensures
            r@ == self.spec_message(),
    {
        match self {
            WgpuClippingLayoutError::TooManyMasksForSingleTexture { mask_count } => {
                let mut text = "single mask texture supports at most 36 clipping contexts, got "
                    .to_string();
                push_decimal(&mut text, *mask_count as u64);
                text
            },
            WgpuClippingLayoutError::MissingDrawableBounds { drawable_index } => framed_number(
                "drawable ",
                *drawable_index,
                " has no clipping bounds",
            ),
            WgpuClippingLayoutError::MissingLayout { context_index } => framed_number(
                "clipping context ",
                *context_index,
                " has no layout",
            ),
            WgpuClippingLayoutError::MissingMaskMatrix { context_index } => framed_number(
                "clipping context ",
                *context_index,
                " has no mask matrix",
            ),
            WgpuClippingLayoutError::MissingDrawMatrix { context_index } => framed_number(
                "clipping context ",
                *context_index,
                " has no draw matrix",
            ),
            WgpuClippingLayoutError::InvalidMaskDrawableIndex { drawable_index } => {
                let mut text = "invalid mask drawable index ".to_string();
                push_signed_decimal(&mut text, *drawable_index as i64);
                text
            },
            WgpuClippingLayoutError::DegenerateClippedBounds { context_index } => framed_number(
                "clipping context ",
                *context_index,
                " has degenerate clipped bounds",
            ),
        }
    }
}

/// Where a clipping context's mask is drawn: a channel of the mask texture and
/// cell `cell_index` of the `cell_count` equal cells that channel is split into.
#[derive(Debug, Copy, Clone, PartialEq, Eq)]
pub struct WgpuClippingLayout {
    channel: WgpuMaskChannel,
    cell_index: usize,
    cell_count: usize,
}

/// The fields of a [`WgpuClippingLayout`].
pub struct LayoutView {
    pub channel: WgpuMaskChannel,
    pub cell_index: nat,
    pub cell_count: nat,
}

impl View for WgpuClippingLayout {
    type V = LayoutView;

    closed spec fn view(&self) -> LayoutView {
        LayoutView {
            channel: self.channel,
            cell_index: self.cell_index as nat,
            cell_count: self.cell_count as nat,
        }
    }
}

impl WgpuClippingLayout {
    pub fn new(channel: WgpuMaskChannel, cell_index: usize, cell_count: usize) -> (r: Self)
        ensures
            r@ == (LayoutView {
                channel,
                cell_index: cell_index as nat,
                cell_count: cell_count as nat,
            }),
    {
        WgpuClippingLayout { channel, cell_index, cell_count }
    }

    pub fn channel(&self) -> (r: WgpuMaskChannel)
        ensures
            r == self@.channel,
    {
        self.channel
    }

    pub fn cell_index(&self) -> (r: usize)
        ensures
            r == self@.cell_index,
    {
        self.cell_index
    }

    pub fn cell_count(&self) -> (r: usize)
        ensures
            r == self@.cell_count,
    {
        self.cell_count
    }
}

/// Two mask lists name the same drawables the same number of times, in any
/// order.
pub open spec fn same_masks(left: Seq<i32>, right: Seq<i32>) -> bool {
    left.to_multiset() == right.to_multiset()
}

/// How many times `value` occurs in `values`.
fn count_occurrences(values: &[i32], value: i32) -> (r: usize)
    ensures
        r == values@.to_multiset().count(value),
{
    broadcast use vstd::seq_lib::group_to_multiset_ensures;

    let mut count: usize = 0;
    let mut i: usize = 0;
    while i < values.len()
        invariant
            i <= values@.len(),
            count == values@.take(i as int).to_multiset().count(value),
            count <= i,
        decreases values@.len() - i,
    {
        proof {
            assert(values@.take(i + 1) =~= values@.take(i as int).push(values@[i as int]));
            values@.take(i as int).to_multiset_ensures();
        }
        if values[i] == value {
            count += 1;
        }
        i += 1;
    }
    proof {
        assert(values@.take(values@.len() as int) =~= values@);
    }
    count
}

/// Whether two mask lists hold the same drawables with the same
/// multiplicities, whatever their order.
pub fn same_mask_set(left: &[i32], right: &[i32]) -> (r: bool)
    ensures
        r == same_masks(left@, right@),
{
    broadcast use vstd::seq_lib::group_to_multiset_ensures;

    if left.len() != right.len() {
        proof {
            assert(left@.to_multiset().len() == left@.len());
            assert(right@.to_multiset().len() == right@.len());
        }
        return false;
    }
    let mut i: usize = 0;
    while i < left.len()
        invariant
            i <= left@.len(),
            forall|j: int|
                0 <= j < i ==> left@.to_multiset().count(#[trigger] left@[j])
                    == right@.to_multiset().count(left@[j]),
        decreases left@.len() - i,
    {
        if count_occurrences(left, left[i]) != count_occurrences(right, left[i]) {
            return false;
        }
        i += 1;
    }
    let mut i: usize = 0;
    while i < right.len()
        invariant
            i <= right@.len(),
            forall|j: int|
                0 <= j < left@.len() ==> left@.to_multiset().count(#[trigger] left@[j])
                    == right@.to_multiset().count(left@[j]),
            forall|j: int|
                0 <= j < i ==> left@.to_multiset().count(#[trigger] right@[j])
                    == right@.to_multiset().count(right@[j]),
        decreases right@.len() - i,
    {
        if count_occurrences(left, right[i]) != count_occurrences(right, right[i]) {
            return false;
        }
        i += 1;
    }
    proof {
        assert forall|x: i32| #[trigger] left@.to_multiset().count(x) == right@.to_multiset().count(x) by {
            if left@.contains(x) {
                let j = choose|j: int| 0 <= j < left@.len() && left@[j] == x;
                assert(left@.to_multiset().count(left@[j]) == right@.to_multiset().count(left@[j]));
            } else if right@.contains(x) {
                let j = choose|j: int| 0 <= j < right@.len() && right@[j] == x;
                assert(left@.to_multiset().count(right@[j]) == right@.to_multiset().count(right@[j]));
            }
        }
        assert(left@.to_multiset() =~= right@.to_multiset());
    }
    true
}

/// [`same_mask_set`] is an equivalence: reflexive, symmetric and transitive.
pub proof fn lemma_same_masks_equivalence(a: Seq<i32>, b: Seq<i32>, c: Seq<i32>)
    ensures
        same_masks(a, a),
        same_masks(a, b) ==> same_masks(b, a),
        same_masks(a, b) && same_masks(b, c) ==> same_masks(a, c),
        same_masks(a, b) ==> a.len() == b.len(),
{
    a.to_multiset_ensures();
    b.to_multiset_ensures();
}


/// Drawables sharing one set of mask drawables, and the mask layout assigned
/// to them.
#[derive(Debug, PartialEq, Eq)]
pub struct WgpuClippingContext {
    masks: Vec<i32>,
    drawable_indices: Vec<usize>,
    layout: Option<WgpuClippingLayout>,
}

/// The contents of a [`WgpuClippingContext`].
pub struct ContextView {
    pub masks: Seq<i32>,
    pub drawable_indices: Seq<usize>,
    pub layout: Option<LayoutView>,
}

impl View for WgpuClippingContext {
    type V = ContextView;

    closed spec fn view(&self) -> ContextView {
        ContextView {
            masks: self.masks@,
            drawable_indices: self.drawable_indices@,
            layout: match self.layout {
                Some(l) => Some(l@),
                None => None,
            },
        }
    }
}

impl WgpuClippingContext {
    /// The mask drawables of the context, in the order of its first drawable.
    pub fn masks(&self) -> (r: &[i32])
        ensures
            r@ == self@.masks,
    {
        self.masks.as_slice()
    }

    /// The drawables clipped by this context, in increasing order.
    pub fn drawable_indices(&self) -> (r: &[usize])
        ensures
            r@ == self@.drawable_indices,
    {
        self.drawable_indices.as_slice()
    }

    pub fn layout(&self) -> (r: Option<WgpuClippingLayout>)
        ensures
            r is Some <==> self@.layout is Some,
            r matches Some(l) ==> self@.layout == Some(l@),
    {
        self.layout
    }
}

/// The view of a sequence of contexts.
pub open spec fn contexts_view(contexts: Seq<WgpuClippingContext>) -> Seq<ContextView> {
    contexts.map_values(|c: WgpuClippingContext| c@)
}

/// The view of each drawable's mask list.
pub open spec fn masks_view(masks: Seq<Vec<i32>>) -> Seq<Seq<i32>> {
    masks.map_values(|m: Vec<i32>| m@)
}

/// The clipping contexts of a model and the drawables that no mask clips.
#[derive(Debug, PartialEq, Eq)]
pub struct WgpuClippingPlan {
    contexts: Vec<WgpuClippingContext>,
    unmasked_drawable_indices: Vec<usize>,
}

/// The contents of a [`WgpuClippingPlan`].
pub struct PlanView {
    pub contexts: Seq<ContextView>,
    pub unmasked_drawable_indices: Seq<usize>,
}

impl View for WgpuClippingPlan {
    type V = PlanView;

    closed spec fn view(&self) -> PlanView {
        PlanView {
            contexts: contexts_view(self.contexts@),
            unmasked_drawable_indices: self.unmasked_drawable_indices@,
        }
    }
}

/// The drawables below `upto` with no masks are listed once each, in
/// increasing order, and nothing else is.
pub open spec fn unmasked_listed(unmasked: Seq<usize>, ms: Seq<Seq<i32>>, upto: int) -> bool {
    &&& forall|a: int, b: int|
        0 <= a < b < unmasked.len() ==> #[trigger] unmasked[a] < #[trigger] unmasked[b]
    &&& forall|j: int|
        0 <= j < unmasked.len() ==> #[trigger] unmasked[j] < upto && ms[unmasked[j] as int].len()
            == 0
    &&& forall|d: int| 0 <= d < upto && (#[trigger] ms[d]).len() == 0 ==> unmasked.contains(d as usize)
}

/// A context is non-empty, lists its drawables in increasing order, takes its
/// masks from its first drawable, has no layout yet, and holds exactly the
/// drawables below `upto` whose masks are the same set as its own.
pub open spec fn context_groups(c: ContextView, ms: Seq<Seq<i32>>, upto: int) -> bool {
    &&& c.drawable_indices.len() > 0
    &&& forall|a: int, b: int|
        0 <= a < b < c.drawable_indices.len() ==> #[trigger] c.drawable_indices[a]
            < #[trigger] c.drawable_indices[b]
    &&& c.masks == ms[c.drawable_indices[0] as int]
    &&& c.layout is None
    &&& forall|j: int|
        0 <= j < c.drawable_indices.len() ==> {
            let d = #[trigger] c.drawable_indices[j];
            &&& d < upto
            &&& ms[d as int].len() > 0
            &&& same_masks(ms[d as int], c.masks)
        }
    &&& forall|d: int|
        0 <= d < upto && (#[trigger] ms[d]).len() > 0 && same_masks(ms[d], c.masks)
            ==> c.drawable_indices.contains(d as usize)
}

/// A plan groups the first `upto` drawables: unmasked drawables are listed,
/// every masked drawable falls in the context with its mask set, no two
/// contexts have the same mask set, and contexts come in the order of their
/// first drawables.
pub open spec fn plan_groups(p: PlanView, ms: Seq<Seq<i32>>, upto: int) -> bool {
    &&& unmasked_listed(p.unmasked_drawable_indices, ms, upto)
    &&& forall|c: int| 0 <= c < p.contexts.len() ==> context_groups(#[trigger] p.contexts[c], ms, upto)
    &&& forall|d: int|
        0 <= d < upto && (#[trigger] ms[d]).len() > 0 ==> exists|c: int|
            0 <= c < p.contexts.len() && same_masks(ms[d], (#[trigger] p.contexts[c]).masks)
    &&& forall|c1: int, c2: int|
        0 <= c1 < c2 < p.contexts.len() ==> !same_masks(
            (#[trigger] p.contexts[c1]).masks,
            (#[trigger] p.contexts[c2]).masks,
        )
    &&& forall|c1: int, c2: int|
        0 <= c1 < c2 < p.contexts.len() ==> (#[trigger] p.contexts[c1]).drawable_indices[0]
            < (#[trigger] p.contexts[c2]).drawable_indices[0]
}

/// The first context whose masks are the same set as `masks`.
fn find_context(contexts: &Vec<WgpuClippingContext>, masks: &[i32]) -> (r: Option<usize>)
    ensures
        r matches Some(k) ==> k < contexts@.len() && same_masks(contexts@[k as int]@.masks, masks@),
        r matches Some(k) ==> forall|c: int|
            0 <= c < k ==> !same_masks(#[trigger] contexts@[c]@.masks, masks@),
        r is None ==> forall|c: int|
            0 <= c < contexts@.len() ==> !same_masks(#[trigger] contexts@[c]@.masks, masks@),
{
    let mut k: usize = 0;
    while k < contexts.len()
        invariant
            k <= contexts@.len(),
            forall|c: int| 0 <= c < k ==> !same_masks(#[trigger] contexts@[c]@.masks, masks@),
        decreases contexts@.len() - k,
    {
        if same_mask_set(contexts[k].masks.as_slice(), masks) {
            return Some(k);
        }
        k += 1;
    }
    None
}

impl WgpuClippingPlan {
    /// Groups drawables by their mask sets. `drawable_masks[d]` lists the mask
    /// drawables of drawable `d`; drawables with no masks are left unmasked.
    #[verifier::rlimit(60)]
    pub fn from_drawable_masks(drawable_masks: &[Vec<i32>]) -> (r: Self)
        ensures
            plan_groups(r@, masks_view(drawable_masks@), drawable_masks@.len() as int),
    {
        let ghost ms = masks_view(drawable_masks@);
        let mut contexts: Vec<WgpuClippingContext> = Vec::new();
        let mut unmasked: Vec<usize> = Vec::new();
        let mut d: usize = 0;
        while d < drawable_masks.len()
            invariant
                d <= drawable_masks@.len(),
                ms == masks_view(drawable_masks@),
                plan_groups(
                    PlanView { contexts: contexts_view(contexts@), unmasked_drawable_indices: unmasked@ },
                    ms,
                    d as int,
                ),
            decreases drawable_masks@.len() - d,
        {
            let masks = drawable_masks[d].as_slice();
            proof {
                assert(masks@ == ms[d as int]);
            }
            let ghost old_cs = contexts_view(contexts@);
            let ghost old_u = unmasked@;
            if masks.len() == 0 {
                unmasked.push(d);
                proof {
                    lemma_plan_add_unmasked(old_cs, old_u, ms, d as int);
                }
            } else {
                match find_context(&contexts, masks) {
                    Some(k) => {
                        let mut context = contexts.remove(k);
                        context.drawable_indices.push(d);
                        let ghost new_c = context@;
                        contexts.insert(k, context);
                        proof {
                            assert(contexts_view(contexts@) =~= old_cs.update(k as int, new_c));
                            assert(old_cs[k as int] == contexts_view(contexts@)[k as int] || true);
                            lemma_plan_add_to_context(old_cs, old_u, ms, d as int, k as int, new_c);
                        }
                    },
                    None => {
                        let mut indices: Vec<usize> = Vec::new();
                        indices.push(d);
                        let context = WgpuClippingContext {
                            masks: vstd::slice::slice_to_vec(masks),
                            drawable_indices: indices,
                            layout: None,
                        };
                        let ghost new_c = context@;
                        contexts.push(context);
                        proof {
                            assert(contexts_view(contexts@) =~= old_cs.push(new_c));
                            lemma_plan_add_context(old_cs, old_u, ms, d as int, new_c);
                        }
                    },
                }
            }
            d += 1;
        }
        WgpuClippingPlan { contexts, unmasked_drawable_indices: unmasked }
    }

    pub fn contexts(&self) -> (r: &[WgpuClippingContext])
        ensures
            contexts_view(r@) == self@.contexts,
            r@.len() == self@.contexts.len(),
    {
        self.contexts.as_slice()
    }

    pub fn unmasked_drawable_indices(&self) -> (r: &[usize])
        ensures
            r@ == self@.unmasked_drawable_indices,
    {
        self.unmasked_drawable_indices.as_slice()
    }
}

/// Adding an unmasked drawable `d` keeps the grouping of the first `d + 1`
/// drawables.
#[verifier::rlimit(30)]
proof fn lemma_plan_add_unmasked(cs: Seq<ContextView>, u: Seq<usize>, ms: Seq<Seq<i32>>, d: int)
    requires
        0 <= d < ms.len(),
        d <= usize::MAX,
        ms[d].len() == 0,
        plan_groups(PlanView { contexts: cs, unmasked_drawable_indices: u }, ms, d),
    ensures
        plan_groups(
            PlanView { contexts: cs, unmasked_drawable_indices: u.push(d as usize) },
            ms,
            d + 1,
        ),
{
    let u2 = u.push(d as usize);
    assert forall|e: int| 0 <= e < d + 1 && (#[trigger] ms[e]).len() == 0 implies u2.contains(
        e as usize,
    ) by {
        if e < d {
            let j = choose|j: int| 0 <= j < u.len() && u[j] == e as usize;
            assert(u2[j] == e as usize);
        } else {
            assert(u2[u.len() as int] == d as usize);
        }
    }
    assert forall|c: int| 0 <= c < cs.len() implies context_groups(#[trigger] cs[c], ms, d + 1) by {
        assert(context_groups(cs[c], ms, d));
    }
}

/// A context with the same mask set as masked drawable `d` stays a valid
/// group of the first `d + 1` drawables once `d` is appended to it.
#[verifier::rlimit(30)]
proof fn lemma_context_grows(c: ContextView, ms: Seq<Seq<i32>>, d: int, new_c: ContextView)
    requires
        0 <= d < ms.len(),
        d <= usize::MAX,
        ms[d].len() > 0,
        same_masks(c.masks, ms[d]),
        context_groups(c, ms, d),
        new_c == (ContextView {
            masks: c.masks,
            drawable_indices: c.drawable_indices.push(d as usize),
            layout: c.layout,
        }),
    ensures
        context_groups(new_c, ms, d + 1),
{
    let di = new_c.drawable_indices;
    assert forall|a: int, b: int| 0 <= a < b < di.len() implies #[trigger] di[a] < #[trigger] di[b] by {
        if b == di.len() - 1 {
            assert(c.drawable_indices[a] < d);
        } else {
            assert(di[a] == c.drawable_indices[a]);
            assert(di[b] == c.drawable_indices[b]);
        }
    }
    assert forall|j: int| 0 <= j < di.len() implies {
        let e = #[trigger] di[j];
        &&& e < d + 1
        &&& ms[e as int].len() > 0
        &&& same_masks(ms[e as int], new_c.masks)
    } by {
        if j < di.len() - 1 {
            assert(di[j] == c.drawable_indices[j]);
        }
    }
    assert forall|e: int|
        0 <= e < d + 1 && (#[trigger] ms[e]).len() > 0 && same_masks(ms[e], new_c.masks) implies di.contains(
        e as usize,
    ) by {
        if e < d {
            let j = choose|j: int|
                0 <= j < c.drawable_indices.len() && c.drawable_indices[j] == e as usize;
            assert(di[j] == e as usize);
        } else {
            assert(di[di.len() - 1] == d as usize);
        }
    }
}

/// A context whose mask set differs from that of drawable `d` stays a valid
/// group of the first `d + 1` drawables.
proof fn lemma_context_unaffected(c: ContextView, ms: Seq<Seq<i32>>, d: int)
    requires
        0 <= d < ms.len(),
        !same_masks(ms[d], c.masks),
        context_groups(c, ms, d),
    ensures
        context_groups(c, ms, d + 1),
{
    assert forall|e: int|
        0 <= e < d + 1 && (#[trigger] ms[e]).len() > 0 && same_masks(ms[e], c.masks) implies c.drawable_indices.contains(
        e as usize,
    ) by {
        assert(e != d);
    }
}

/// Adding masked drawable `d` to context `k`, the first with the same mask
/// set, keeps the grouping of the first `d + 1` drawables.
proof fn lemma_plan_add_to_context(
    cs: Seq<ContextView>,
    u: Seq<usize>,
    ms: Seq<Seq<i32>>,
    d: int,
    k: int,
    new_c: ContextView,
)
    requires
        0 <= d < ms.len(),
        d <= usize::MAX,
        ms[d].len() > 0,
        0 <= k < cs.len(),
        same_masks(cs[k].masks, ms[d]),
        new_c == (ContextView {
            masks: cs[k].masks,
            drawable_indices: cs[k].drawable_indices.push(d as usize),
            layout: cs[k].layout,
        }),
        plan_groups(PlanView { contexts: cs, unmasked_drawable_indices: u }, ms, d),
    ensures
        plan_groups(
            PlanView { contexts: cs.update(k, new_c), unmasked_drawable_indices: u },
            ms,
            d + 1,
        ),
{
    lemma_add_to_context_groups(cs, u, ms, d, k, new_c);
    lemma_add_to_context_covers(cs, u, ms, d, k, new_c);
    lemma_add_to_context_order(cs, u, ms, d, k, new_c);
}

#[verifier::rlimit(30)]
proof fn lemma_add_to_context_groups(
    cs: Seq<ContextView>,
    u: Seq<usize>,
    ms: Seq<Seq<i32>>,
    d: int,
    k: int,
    new_c: ContextView,
)
    requires
        0 <= d < ms.len(),
        d <= usize::MAX,
        ms[d].len() > 0,
        0 <= k < cs.len(),
        same_masks(cs[k].masks, ms[d]),
        new_c == (ContextView {
            masks: cs[k].masks,
            drawable_indices: cs[k].drawable_indices.push(d as usize),
            layout: cs[k].layout,
        }),
        plan_groups(PlanView { contexts: cs, unmasked_drawable_indices: u }, ms, d),
    ensures
        unmasked_listed(u, ms, d + 1),
        forall|c: int|
            0 <= c < cs.len() ==> context_groups(#[trigger] cs.update(k, new_c)[c], ms, d + 1),
{
    let cs2 = cs.update(k, new_c);
    assert forall|c: int| 0 <= c < cs2.len() implies context_groups(#[trigger] cs2[c], ms, d + 1) by {
        assert(context_groups(cs[c], ms, d));
        if c == k {
            lemma_context_grows(cs[k], ms, d, new_c);
        } else {
            if c < k {
                assert(!same_masks(cs[c].masks, cs[k].masks));
            } else {
                assert(!same_masks(cs[k].masks, cs[c].masks));
            }
            lemma_context_unaffected(cs[c], ms, d);
        }
    }
}

#[verifier::rlimit(30)]
proof fn lemma_add_to_context_covers(
    cs: Seq<ContextView>,
    u: Seq<usize>,
    ms: Seq<Seq<i32>>,
    d: int,
    k: int,
    new_c: ContextView,
)
    requires
        0 <= d < ms.len(),
        0 <= k < cs.len(),
        same_masks(cs[k].masks, ms[d]),
        new_c.masks == cs[k].masks,
        plan_groups(PlanView { contexts: cs, unmasked_drawable_indices: u }, ms, d),
    ensures
        forall|e: int|
            0 <= e < d + 1 && (#[trigger] ms[e]).len() > 0 ==> exists|c: int|
                0 <= c < cs.update(k, new_c).len() && same_masks(
                    ms[e],
                    (#[trigger] cs.update(k, new_c)[c]).masks,
                ),
        forall|c1: int, c2: int|
            0 <= c1 < c2 < cs.len() ==> !same_masks(
                (#[trigger] cs.update(k, new_c)[c1]).masks,
                (#[trigger] cs.update(k, new_c)[c2]).masks,
            ),
{
    let cs2 = cs.update(k, new_c);
    assert forall|e: int| 0 <= e < d + 1 && (#[trigger] ms[e]).len() > 0 implies exists|c: int|
        0 <= c < cs2.len() && same_masks(ms[e], (#[trigger] cs2[c]).masks) by {
        if e == d {
            assert(same_masks(ms[e], cs2[k].masks));
        } else {
            let c = choose|c: int| 0 <= c < cs.len() && same_masks(ms[e], (#[trigger] cs[c]).masks);
            assert(cs2[c].masks == cs[c].masks);
        }
    }
    assert forall|c1: int, c2: int| 0 <= c1 < c2 < cs.len() implies !same_masks(
        (#[trigger] cs2[c1]).masks,
        (#[trigger] cs2[c2]).masks,
    ) by {
        assert(cs2[c1].masks == cs[c1].masks);
        assert(cs2[c2].masks == cs[c2].masks);
    }
}

#[verifier::rlimit(30)]
proof fn lemma_add_to_context_order(
    cs: Seq<ContextView>,
    u: Seq<usize>,
    ms: Seq<Seq<i32>>,
    d: int,
    k: int,
    new_c: ContextView,
)
    requires
        0 <= k < cs.len(),
        context_groups(cs[k], ms, d),
        new_c.drawable_indices[0] == cs[k].drawable_indices[0],
        plan_groups(PlanView { contexts: cs, unmasked_drawable_indices: u }, ms, d),
    ensures
        forall|c1: int, c2: int|
            0 <= c1 < c2 < cs.len() ==> (#[trigger] cs.update(k, new_c)[c1]).drawable_indices[0]
                < (#[trigger] cs.update(k, new_c)[c2]).drawable_indices[0],
{
    let cs2 = cs.update(k, new_c);
    assert forall|c1: int, c2: int| 0 <= c1 < c2 < cs.len() implies (#[trigger] cs2[c1]).drawable_indices[0]
        < (#[trigger] cs2[c2]).drawable_indices[0] by {
        assert(cs2[c1].drawable_indices[0] == cs[c1].drawable_indices[0]);
        assert(cs2[c2].drawable_indices[0] == cs[c2].drawable_indices[0]);
    }
}

/// Opening a new context for masked drawable `d`, whose mask set no context
/// has, keeps the grouping of the first `d + 1` drawables.
#[verifier::rlimit(30)]
proof fn lemma_plan_add_context(
    cs: Seq<ContextView>,
    u: Seq<usize>,
    ms: Seq<Seq<i32>>,
    d: int,
    new_c: ContextView,
)
    requires
        0 <= d < ms.len(),
        d <= usize::MAX,
        ms[d].len() > 0,
        forall|c: int| 0 <= c < cs.len() ==> !same_masks(#[trigger] cs[c].masks, ms[d]),
        new_c == (ContextView {
            masks: ms[d],
            drawable_indices: seq![d as usize],
            layout: None,
        }),
        plan_groups(PlanView { contexts: cs, unmasked_drawable_indices: u }, ms, d),
    ensures
        plan_groups(
            PlanView { contexts: cs.push(new_c), unmasked_drawable_indices: u },
            ms,
            d + 1,
        ),
{
    lemma_add_context_groups(cs, u, ms, d, new_c);
    lemma_add_context_covers(cs, u, ms, d, new_c);
    lemma_add_context_order(cs, u, ms, d, new_c);
    assert(unmasked_listed(u, ms, d + 1)) by {
        assert forall|e: int| 0 <= e < d + 1 && (#[trigger] ms[e]).len() == 0 implies u.contains(
            e as usize,
        ) by {
            assert(e != d);
        }
        assert forall|j: int| 0 <= j < u.len() implies #[trigger] u[j] < d + 1 && ms[u[j] as int].len()
            == 0 by {
        }
    }
}

#[verifier::rlimit(30)]
proof fn lemma_add_context_groups(
    cs: Seq<ContextView>,
    u: Seq<usize>,
    ms: Seq<Seq<i32>>,
    d: int,
    new_c: ContextView,
)
    requires
        0 <= d < ms.len(),
        d <= usize::MAX,
        ms[d].len() > 0,
        forall|c: int| 0 <= c < cs.len() ==> !same_masks(#[trigger] cs[c].masks, ms[d]),
        new_c == (ContextView {
            masks: ms[d],
            drawable_indices: seq![d as usize],
            layout: None,
        }),
        plan_groups(PlanView { contexts: cs, unmasked_drawable_indices: u }, ms, d),
    ensures
        forall|c: int|
            0 <= c < cs.push(new_c).len() ==> context_groups(#[trigger] cs.push(new_c)[c], ms, d + 1),
{
    let cs2 = cs.push(new_c);
    assert forall|c: int| 0 <= c < cs2.len() implies context_groups(#[trigger] cs2[c], ms, d + 1) by {
        if c < cs.len() {
            assert(cs2[c] == cs[c]);
            assert(context_groups(cs[c], ms, d));
            assert forall|e: int|
                0 <= e < d + 1 && (#[trigger] ms[e]).len() > 0 && same_masks(ms[e], cs[c].masks)
                implies cs[c].drawable_indices.contains(e as usize) by {
                if e == d {
                    assert(!same_masks(cs[c].masks, ms[d]));
                }
            }
        } else {
            assert(cs2[c] == new_c);
            assert forall|e: int|
                0 <= e < d + 1 && (#[trigger] ms[e]).len() > 0 && same_masks(ms[e], new_c.masks)
                implies new_c.drawable_indices.contains(e as usize) by {
                if e < d {
                    let c0 = choose|c0: int|
                        0 <= c0 < cs.len() && same_masks(ms[e], (#[trigger] cs[c0]).masks);
                    assert(!same_masks(cs[c0].masks, ms[d]));
                } else {
                    assert(new_c.drawable_indices[0] == d as usize);
                }
            }
        }
    }
}

#[verifier::rlimit(30)]
proof fn lemma_add_context_covers(
    cs: Seq<ContextView>,
    u: Seq<usize>,
    ms: Seq<Seq<i32>>,
    d: int,
    new_c: ContextView,
)
    requires
        0 <= d < ms.len(),
        forall|c: int| 0 <= c < cs.len() ==> !same_masks(#[trigger] cs[c].masks, ms[d]),
        new_c.masks == ms[d],
        plan_groups(PlanView { contexts: cs, unmasked_drawable_indices: u }, ms, d),
    ensures
        forall|e: int|
            0 <= e < d + 1 && (#[trigger] ms[e]).len() > 0 ==> exists|c: int|
                0 <= c < cs.push(new_c).len() && same_masks(ms[e], (#[trigger] cs.push(new_c)[c]).masks),
        forall|c1: int, c2: int|
            0 <= c1 < c2 < cs.push(new_c).len() ==> !same_masks(
                (#[trigger] cs.push(new_c)[c1]).masks,
                (#[trigger] cs.push(new_c)[c2]).masks,
            ),
{
    let cs2 = cs.push(new_c);
    assert forall|e: int| 0 <= e < d + 1 && (#[trigger] ms[e]).len() > 0 implies exists|c: int|
        0 <= c < cs2.len() && same_masks(ms[e], (#[trigger] cs2[c]).masks) by {
        if e == d {
            assert(same_masks(ms[e], cs2[cs.len() as int].masks));
        } else {
            let c = choose|c: int| 0 <= c < cs.len() && same_masks(ms[e], (#[trigger] cs[c]).masks);
            assert(cs2[c] == cs[c]);
        }
    }
    assert forall|c1: int, c2: int| 0 <= c1 < c2 < cs2.len() implies !same_masks(
        (#[trigger] cs2[c1]).masks,
        (#[trigger] cs2[c2]).masks,
    ) by {
        if c2 == cs.len() {
            assert(cs2[c1] == cs[c1]);
            assert(!same_masks(cs[c1].masks, ms[d]));
        } else {
            assert(cs2[c1] == cs[c1]);
            assert(cs2[c2] == cs[c2]);
        }
    }
}

#[verifier::rlimit(30)]
proof fn lemma_add_context_order(
    cs: Seq<ContextView>,
    u: Seq<usize>,
    ms: Seq<Seq<i32>>,
    d: int,
    new_c: ContextView,
)
    requires
        0 <= d,
        d <= usize::MAX,
        new_c.drawable_indices == seq![d as usize],
        plan_groups(PlanView { contexts: cs, unmasked_drawable_indices: u }, ms, d),
    ensures
        forall|c1: int, c2: int|
            0 <= c1 < c2 < cs.push(new_c).len() ==> (#[trigger] cs.push(new_c)[c1]).drawable_indices[0]
                < (#[trigger] cs.push(new_c)[c2]).drawable_indices[0],
{
    let cs2 = cs.push(new_c);
    assert forall|c1: int, c2: int| 0 <= c1 < c2 < cs2.len() implies (#[trigger] cs2[c1]).drawable_indices[0]
        < (#[trigger] cs2[c2]).drawable_indices[0] by {
        assert(cs2[c1] == cs[c1]);
        assert(context_groups(cs[c1], ms, d));
        assert(cs[c1].drawable_indices[0] < d);
        if c2 < cs.len() {
            assert(cs2[c2] == cs[c2]);
        } else {
            assert(cs2[c2].drawable_indices[0] == d as usize);
        }
    }
}


/// The most clipping contexts a single mask texture holds: nine cells in each
/// of four channels.
pub const MAX_SINGLE_TEXTURE_CONTEXTS: usize = 36;

/// How many of `n` contexts go to channel `ch`: an even share, the first
/// `n % 4` channels taking one more.
pub open spec fn spec_channel_count(n: int, ch: int) -> int {
    n / 4 + if ch < n % 4 {
        1int
    } else {
        0int
    }
}

/// The first context of channel `ch`.
pub open spec fn spec_channel_start(n: int, ch: int) -> int {
    let div = n / 4;
    let rem = n % 4;
    if ch <= 0 {
        0
    } else if ch == 1 {
        div + if rem < 1 { rem } else { 1 }
    } else if ch == 2 {
        2 * div + if rem < 2 { rem } else { 2 }
    } else if ch == 3 {
        3 * div + if rem < 3 { rem } else { 3 }
    } else {
        n
    }
}

/// The channel that context `c` of `n` goes to.
pub open spec fn spec_channel_of(n: int, c: int) -> int {
    if c < spec_channel_start(n, 1) {
        0
    } else if c < spec_channel_start(n, 2) {
        1
    } else if c < spec_channel_start(n, 3) {
        2
    } else {
        3
    }
}

/// The layout of context `c` of `n`: its channel, its place among that
/// channel's contexts, and how many contexts share the channel.
pub open spec fn spec_layout_of(n: int, c: int) -> LayoutView {
    let ch = spec_channel_of(n, c);
    LayoutView {
        channel: spec_channel_from_index(ch)->0,
        cell_index: (c - spec_channel_start(n, ch)) as nat,
        cell_count: spec_channel_count(n, ch) as nat,
    }
}

/// `c` with layout `layout`.
pub open spec fn with_layout(c: ContextView, layout: LayoutView) -> ContextView {
    ContextView { masks: c.masks, drawable_indices: c.drawable_indices, layout: Some(layout) }
}

/// For at most 36 contexts, every context gets a cell inside its channel, no
/// channel is split into more than nine cells, and no two contexts share a
/// channel and a cell.
pub proof fn lemma_single_texture_layouts_distinct(n: int, c1: int, c2: int)
    requires
        0 <= n <= MAX_SINGLE_TEXTURE_CONTEXTS,
        0 <= c1 < n,
        0 <= c2 < n,
    ensures
        spec_layout_of(n, c1).cell_index < spec_layout_of(n, c1).cell_count <= 9,
        c1 != c2 ==> spec_layout_of(n, c1).channel != spec_layout_of(n, c2).channel
            || spec_layout_of(n, c1).cell_index != spec_layout_of(n, c2).cell_index,
{
}

impl WgpuClippingPlan {
    /// Gives every context a cell of the single mask texture: the contexts are
    /// split as evenly as possible across the red, green, blue and alpha
    /// channels in that order, and each channel is divided into as many cells
    /// as it has contexts. More than 36 contexts do not fit and change nothing.
    #[verifier::rlimit(60)]
    pub fn assign_single_texture_layouts(&mut self) -> (r: Result<(), WgpuClippingLayoutError>)
        ensures
            ({
                let n = old(self)@.contexts.len();
                &&& n > MAX_SINGLE_TEXTURE_CONTEXTS ==> r == Err::<(), WgpuClippingLayoutError>(
                    WgpuClippingLayoutError::TooManyMasksForSingleTexture { mask_count: n as usize },
                ) && final(self)@ == old(self)@
                &&& n <= MAX_SINGLE_TEXTURE_CONTEXTS ==> r is Ok
                &&& n <= MAX_SINGLE_TEXTURE_CONTEXTS ==> final(self)@.unmasked_drawable_indices
                    == old(self)@.unmasked_drawable_indices
                &&& n <= MAX_SINGLE_TEXTURE_CONTEXTS ==> final(self)@.contexts.len() == n
                &&& n <= MAX_SINGLE_TEXTURE_CONTEXTS ==> forall|c: int|
                    0 <= c < n ==> #[trigger] final(self)@.contexts[c] == with_layout(
                        old(self)@.contexts[c],
                        spec_layout_of(n as int, c),
                    )
            }),
    {
        let using_clip_count = self.contexts.len();
        if using_clip_count > MAX_SINGLE_TEXTURE_CONTEXTS {
            return Err(
                WgpuClippingLayoutError::TooManyMasksForSingleTexture { mask_count: using_clip_count },
            );
        }
        let ghost n = using_clip_count as int;
        let ghost old_cs = contexts_view(self.contexts@);
        let div = using_clip_count / 4;
        let rem = using_clip_count % 4;
        let mut context_index: usize = 0;
        let mut channel_index: usize = 0;
        while channel_index < 4
            invariant
                channel_index <= 4,
                n == using_clip_count,
                n <= MAX_SINGLE_TEXTURE_CONTEXTS,
                div == n / 4,
                rem == n % 4,
                context_index == spec_channel_start(n, channel_index as int),
                self.contexts@.len() == n,
                self@.unmasked_drawable_indices == old(self)@.unmasked_drawable_indices,
                old_cs == old(self)@.contexts,
                old_cs.len() == n,
                forall|c: int|
                    0 <= c < context_index ==> #[trigger] contexts_view(self.contexts@)[c]
                        == with_layout(old_cs[c], spec_layout_of(n, c)),
                forall|c: int|
                    context_index <= c < n ==> #[trigger] contexts_view(self.contexts@)[c]
                        == old_cs[c],
            decreases 4 - channel_index,
        {
            let layout_count = div + if channel_index < rem {
                1
            } else {
                0
            };
            let channel = match WgpuMaskChannel::from_index(channel_index) {
                Some(channel) => channel,
                None => WgpuMaskChannel::Red,
            };
            let mut layout_index: usize = 0;
            while layout_index < layout_count
                invariant
                    channel_index < 4,
                    n == using_clip_count,
                    n <= MAX_SINGLE_TEXTURE_CONTEXTS,
                    div == n / 4,
                    rem == n % 4,
                    layout_count == spec_channel_count(n, channel_index as int),
                    spec_channel_from_index(channel_index as int) == Some(channel),
                    layout_index <= layout_count,
                    context_index == spec_channel_start(n, channel_index as int) + layout_index,
                    self.contexts@.len() == n,
                    self@.unmasked_drawable_indices == old(self)@.unmasked_drawable_indices,
                    old_cs == old(self)@.contexts,
                    old_cs.len() == n,
                    forall|c: int|
                        0 <= c < context_index ==> #[trigger] contexts_view(self.contexts@)[c]
                            == with_layout(old_cs[c], spec_layout_of(n, c)),
                    forall|c: int|
                        context_index <= c < n ==> #[trigger] contexts_view(self.contexts@)[c]
                            == old_cs[c],
                decreases layout_count - layout_index,
            {
                let ghost before = self.contexts@;
                let mut context = self.contexts.remove(context_index);
                proof {
                    assert(context == before[context_index as int]);
                    assert(contexts_view(before)[context_index as int] == old_cs[context_index as int]);
                }
                let layout = WgpuClippingLayout::new(channel, layout_index, layout_count);
                context.layout = Some(layout);
                let ghost placed = context@;
                self.contexts.insert(context_index, context);
                proof {
                    assert(placed == with_layout(old_cs[context_index as int], layout@));
                    assert(self.contexts@[context_index as int]@ == placed);
                    assert(spec_channel_of(n, context_index as int) == channel_index);
                    assert(spec_layout_of(n, context_index as int) == (LayoutView {
                        channel,
                        cell_index: layout_index as nat,
                        cell_count: layout_count as nat,
                    }));
                    assert forall|c: int| 0 <= c < n && c != context_index implies #[trigger] self.contexts@[c]
                        == before[c] by {
                        if c < context_index {
                            assert(self.contexts@[c] == before[c]);
                        } else {
                            assert(self.contexts@[c] == before[c]);
                        }
                    }
                }
                proof {
                    assert forall|c: int| 0 <= c < context_index + 1 implies #[trigger] contexts_view(
                        self.contexts@,
                    )[c] == with_layout(old_cs[c], spec_layout_of(n, c)) by {
                        assert(self.contexts@.len() == n);
                        if c < context_index {
                            assert(self.contexts@[c] == before[c]);
                            assert(contexts_view(before)[c] == before[c]@);
                            assert(contexts_view(self.contexts@)[c] == self.contexts@[c]@);
                        } else {
                            assert(contexts_view(self.contexts@)[c] == self.contexts@[c]@);
                            assert(c == context_index);
                        }
                    }
                    assert forall|c: int| context_index + 1 <= c < n implies #[trigger] contexts_view(
                        self.contexts@,
                    )[c] == old_cs[c] by {
                        assert(self.contexts@.len() == n);
                        assert(self.contexts@[c] == before[c]);
                        assert(contexts_view(before)[c] == before[c]@);
                        assert(contexts_view(self.contexts@)[c] == self.contexts@[c]@);
                    }
                }
                layout_index += 1;
                context_index += 1;
            }
            proof {
                assert(context_index == spec_channel_start(n, channel_index + 1));
            }
            channel_index += 1;
        }
        Ok(())
    }
}


/// The texture clipping masks are drawn into: the texture `T`, its view `V`
/// and the bind group `G` it is sampled through, with its size in pixels.
#[derive(Debug)]
pub struct WgpuMaskRenderTarget<T, V, G> {
    texture: T,
    view: V,
    bind_group: G,
    width: u32,
    height: u32,
}

impl<T, V, G> WgpuMaskRenderTarget<T, V, G> {
    pub fn new(texture: T, view: V, bind_group: G, width: u32, height: u32) -> (r: Self)
        ensures
            r.texture_view() == texture,
            r.view_view() == view,
            r.bind_group_view() == bind_group,
            r.width_view() == width,
            r.height_view() == height,
    {
        WgpuMaskRenderTarget { texture, view, bind_group, width, height }
    }

    pub closed spec fn texture_view(&self) -> T {
        self.texture
    }

    pub closed spec fn view_view(&self) -> V {
        self.view
    }

    pub closed spec fn bind_group_view(&self) -> G {
        self.bind_group
    }

    pub closed spec fn width_view(&self) -> u32 {
        self.width
    }

    pub closed spec fn height_view(&self) -> u32 {
        self.height
    }

    pub fn texture(&self) -> (r: &T)
        ensures
            *r == self.texture_view(),
    {
        &self.texture
    }

    pub fn view(&self) -> (r: &V)
        ensures
            *r == self.view_view(),
    {
        &self.view
    }

    pub fn bind_group(&self) -> (r: &G)
        ensures
            *r == self.bind_group_view(),
    {
        &self.bind_group
    }

    pub fn width(&self) -> (r: u32)
        ensures
            r == self.width_view(),
    {
        self.width
    }

    pub fn height(&self) -> (r: u32)
        ensures
            r == self.height_view(),
    {
        self.height
    }
}

/// A clipping context ready to draw: the drawables that form its mask, the
/// drawables it clips, and the GPU resources `R` prepared for it.
#[derive(Debug)]
pub struct WgpuPreparedClippingContext<R> {
    mask_drawable_indices: Vec<usize>,
    drawable_indices: Vec<usize>,
    resources: R,
}

impl<R> WgpuPreparedClippingContext<R> {
    pub fn new(mask_drawable_indices: Vec<usize>, drawable_indices: Vec<usize>, resources: R) -> (r:
        Self)
        ensures
            r.mask_drawables_view() == mask_drawable_indices@,
            r.drawables_view() == drawable_indices@,
            r.resources_view() == resources,
    {
        WgpuPreparedClippingContext { mask_drawable_indices, drawable_indices, resources }
    }

    pub closed spec fn mask_drawables_view(&self) -> Seq<usize> {
        self.mask_drawable_indices@
    }

    pub closed spec fn drawables_view(&self) -> Seq<usize> {
        self.drawable_indices@
    }

    pub closed spec fn resources_view(&self) -> R {
        self.resources
    }

    /// The drawables drawn into the mask.
    pub fn mask_drawable_indices(&self) -> (r: &[usize])
        ensures
            r@ == self.mask_drawables_view(),
    {
        self.mask_drawable_indices.as_slice()
    }

    /// The drawables clipped by the mask.
    pub fn drawable_indices(&self) -> (r: &[usize])
        ensures
            r@ == self.drawables_view(),
    {
        self.drawable_indices.as_slice()
    }

    /// The GPU resources prepared for the context.
    pub fn resources(&self) -> (r: &R)
        ensures
            *r == self.resources_view(),
    {
        &self.resources
    }
}

/// All prepared clipping contexts of a model.
#[derive(Debug)]
pub struct WgpuClippingResources<R> {
    contexts: Vec<WgpuPreparedClippingContext<R>>,
}

impl<R> WgpuClippingResources<R> {
    pub fn new(contexts: Vec<WgpuPreparedClippingContext<R>>) -> (r: Self)
        ensures
            r.contexts_view() == contexts@,
    {
        WgpuClippingResources { contexts }
    }

    pub closed spec fn contexts_view(&self) -> Seq<WgpuPreparedClippingContext<R>> {
        self.contexts@
    }

    pub fn contexts(&self) -> (r: &[WgpuPreparedClippingContext<R>])
        ensures
            r@ == self.contexts_view(),
    {
        self.contexts.as_slice()
    }

    /// The first context that clips `drawable_index`, if any does.
    #[verifier::loop_isolation(false)]
    pub fn context_for_drawable(&self, drawable_index: usize) -> (r: Option<
        &WgpuPreparedClippingContext<R>,
    >)
        ensures
            r is Some <==> exists|c: int|
                0 <= c < self.contexts_view().len() && (#[trigger] self.contexts_view()[c]).drawables_view().contains(
                    drawable_index,
                ),
            r matches Some(context) ==> exists|k: int|
                0 <= k < self.contexts_view().len() && *context == self.contexts_view()[k]
                    && context.drawables_view().contains(drawable_index) && forall|c: int|
                    0 <= c < k ==> !(#[trigger] self.contexts_view()[c]).drawables_view().contains(
                        drawable_index,
                    ),
    {
        let mut k: usize = 0;
        while k < self.contexts.len()
            invariant
                k <= self.contexts@.len(),
                forall|c: int|
                    0 <= c < k ==> !(#[trigger] self.contexts@[c]).drawable_indices@.contains(
                        drawable_index,
                    ),
            decreases self.contexts@.len() - k,
        {
            let context = &self.contexts[k];
            let mut j: usize = 0;
            while j < context.drawable_indices.len()
                invariant
                    j <= context.drawable_indices@.len(),
                    forall|i: int| 0 <= i < j ==> context.drawable_indices@[i] != drawable_index,
                decreases context.drawable_indices@.len() - j,
            {
                if context.drawable_indices[j] == drawable_index {
                    proof {
                        assert(context.drawable_indices@[j as int] == drawable_index);
                        assert(context.drawables_view().contains(drawable_index));
                        assert(*context == self.contexts_view()[k as int]);
                    }
                    return Some(context);
                }
                j += 1;
            }
            proof {
                assert(!context.drawable_indices@.contains(drawable_index));
            }
            k += 1;
        }
        None
    }
}

} // verus!
