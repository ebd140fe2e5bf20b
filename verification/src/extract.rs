//! The region extractor: from marked visual nodes to region records.
//!
//! Once per frame and per surface, the host gathers every visual node marked
//! as a blur target, together with its paint-order index, its rectangle in
//! physical pixels, its four border-radius inputs and its optional settings,
//! and hands them to [`compute_blur_regions`]. Extraction visits the nodes
//! from topmost-painted to bottommost-painted and appends one region record
//! per node to the surface's blur state; the compositor resolves overlaps by
//! first match wins, so this order gives a pixel covered by several stacked
//! regions the settings of the visually topmost one.
//!
//! The rectangle (the node's center plus and minus half its size) and the
//! scaling of a border radius to physical pixels are real-valued arithmetic
//! on the host's native scalar type, so the host computes them; this module
//! receives the outcomes as binary32 bit patterns and does everything that is
//! decided, not computed: ordering, fallback to zero, clamping, defaulting,
//! record assembly.

use vstd::prelude::*;
use crate::camera::{spec_pushed_region, BlurRegionsCamera};
use crate::region::{BorderRadii, ComputedBlurRegion, Rect};
use crate::scalar::{
    is_nan_bits, le_bits, lemma_clamp_bounds, lemma_clamp_idempotent, lemma_sanitize_idempotent,
    lemma_sanitize_non_negative, lemma_zero_bits, sign_bit_set, spec_clamp_to, spec_sanitize,
};
use crate::settings::{spec_default_settings, BlurRegionSettings};

verus! {

/// One corner's border radius as configured on a node, brought to physical
/// pixels by the host but not yet subjected to this library's clamping
/// policy.
#[derive(Clone, Copy, Debug)]
pub enum BorderRadiusInput {
    /// The configuration could not be resolved (for example an automatic
    /// value); such a radius defaults to zero.
    Unresolved,
    /// An absolute pixel amount.
    Absolute { value: u32 },
    /// A fraction of a reference dimension (the node's own vertical extent,
    /// or a viewport dimension), already multiplied out by the host; the
    /// reference length comes along so the result can be kept inside it.
    Fraction { value: u32, reference: u32 },
}

/// The resolved radius: an unresolvable or out-of-range configuration
/// defaults to zero, an absolute amount is clamped to be non-negative, and a
/// fractional amount is clamped to the interval from zero to its reference
/// length.
pub open spec fn spec_resolve_radius(r: BorderRadiusInput) -> u32 {
    match r {
        BorderRadiusInput::Unresolved => 0,
        BorderRadiusInput::Absolute { value } => spec_sanitize(value),
        BorderRadiusInput::Fraction { value, reference } => spec_clamp_to(value, reference),
    }
}

/// Resolves one corner's border radius.
pub fn resolve_radius(r: BorderRadiusInput) -> (v: u32)
    ensures
        v == spec_resolve_radius(r),
{
    match r {
        BorderRadiusInput::Unresolved => 0,
        BorderRadiusInput::Absolute { value } => crate::scalar::sanitize(value),
        BorderRadiusInput::Fraction { value, reference } => crate::scalar::clamp_to(
            value,
            reference,
        ),
    }
}

/// A resolved radius is a fixed point of sanitizing: it is never NaN and
/// never carries a sign, so resolving it again as an absolute amount changes
/// nothing.
pub proof fn lemma_radius_resolution_idempotent(r: BorderRadiusInput)
    ensures
        spec_sanitize(spec_resolve_radius(r)) == spec_resolve_radius(r),
        spec_resolve_radius(
            BorderRadiusInput::Absolute { value: spec_resolve_radius(r) },
        ) == spec_resolve_radius(r),
{
    lemma_zero_bits();
    match r {
        BorderRadiusInput::Unresolved => {},
        BorderRadiusInput::Absolute { value } => {
            lemma_sanitize_idempotent(value);
        },
        BorderRadiusInput::Fraction { value, reference } => {
            lemma_clamp_idempotent(value, reference);
            lemma_sanitize_idempotent(value);
            lemma_sanitize_idempotent(reference);
        },
    }
}

/// What resolution guarantees: the resolved value encodes a number that is at
/// least zero; an absolute amount resolves to exactly the supplied value
/// clamped to be non-negative; a fractional amount stays inside the interval
/// from zero to its (sanitized) reference length.
pub proof fn lemma_radius_resolution_bounded(r: BorderRadiusInput)
    ensures
        !is_nan_bits(spec_resolve_radius(r)),
        !sign_bit_set(spec_resolve_radius(r)),
        le_bits(0, spec_resolve_radius(r)),
        r matches BorderRadiusInput::Absolute { value } ==> spec_resolve_radius(r)
            == spec_sanitize(value),
        r matches BorderRadiusInput::Fraction { value, reference } ==> le_bits(
            spec_resolve_radius(r),
            spec_sanitize(reference),
        ),
{
    lemma_zero_bits();
    match r {
        BorderRadiusInput::Unresolved => {},
        BorderRadiusInput::Absolute { value } => {
            lemma_sanitize_non_negative(value);
        },
        BorderRadiusInput::Fraction { value, reference } => {
            lemma_clamp_bounds(value, reference);
        },
    }
}

/// One marked visual node, as the host's visual-tree system supplies it: the
/// paint-order index (higher is painted later, so visually on top), the
/// node's rectangle in physical pixels, the four corner radius inputs, the
/// visibility flag, and the optional per-node settings.
#[derive(Clone, Copy, Debug)]
pub struct BlurNode {
    /// The paint/stack order of the node; higher paints later and lands on
    /// top.
    pub stack_index: u32,
    /// The node's rectangle: its center plus and minus half its size, in
    /// physical pixels of the target surface.
    pub rect: Rect,
    pub top_left: BorderRadiusInput,
    pub top_right: BorderRadiusInput,
    pub bottom_right: BorderRadiusInput,
    pub bottom_left: BorderRadiusInput,
    /// Whether the node is currently visible. Visibility does not gate
    /// inclusion: a region is appended regardless of this flag. That is a
    /// documented limitation of the effect, not something to fix silently.
    pub visible: bool,
    /// The node's own settings, if any; a node without settings falls back to
    /// the default baseline.
    pub settings: Option<BlurRegionSettings>,
}

/// The region record a node turns into: bounds taken verbatim, each corner
/// radius resolved, settings taken from the node or defaulted.
pub open spec fn spec_region_of_node(n: BlurNode) -> ComputedBlurRegion {
    ComputedBlurRegion {
        min_x: n.rect.min_x,
        max_x: n.rect.max_x,
        min_y: n.rect.min_y,
        max_y: n.rect.max_y,
        border_radii: BorderRadii {
            top_left: spec_resolve_radius(n.top_left),
            top_right: spec_resolve_radius(n.top_right),
            bottom_right: spec_resolve_radius(n.bottom_right),
            bottom_left: spec_resolve_radius(n.bottom_left),
        },
        settings: match n.settings {
            Some(s) => s,
            None => spec_default_settings(),
        },
    }
}

/// `n` inserted into a sequence already ordered by descending paint order:
/// before the first element whose paint order `n` reaches.
pub open spec fn spec_insert_topmost(s: Seq<BlurNode>, n: BlurNode) -> Seq<BlurNode>
    decreases s.len(),
{
    if s.len() == 0 {
        seq![n]
    } else if n.stack_index >= s[0].stack_index {
        seq![n] + s
    } else {
        seq![s[0]] + spec_insert_topmost(s.drop_first(), n)
    }
}

/// The nodes ordered from topmost-painted to bottommost-painted: an insertion
/// sort by descending paint order.
pub open spec fn spec_sort_topmost_first(s: Seq<BlurNode>) -> Seq<BlurNode>
    decreases s.len(),
{
    if s.len() == 0 {
        Seq::<BlurNode>::empty()
    } else {
        spec_insert_topmost(spec_sort_topmost_first(s.drop_last()), s.last())
    }
}

/// The records extraction appends for a set of nodes: the nodes ordered
/// topmost-painted first, each turned into its region record.
pub open spec fn spec_extracted_regions(nodes: Seq<BlurNode>) -> Seq<ComputedBlurRegion> {
    spec_sort_topmost_first(nodes).map_values(|n: BlurNode| spec_region_of_node(n))
}

/// Inserting before the first element whose paint order the new node reaches
/// is what [`spec_insert_topmost`] describes.
proof fn lemma_insert_topmost_at(s: Seq<BlurNode>, n: BlurNode, i: int)
    requires
        0 <= i <= s.len(),
        forall|j: int| 0 <= j < i ==> s[j].stack_index > n.stack_index,
        i < s.len() ==> n.stack_index >= s[i].stack_index,
    ensures
        spec_insert_topmost(s, n) == s.subrange(0, i) + seq![n] + s.subrange(i, s.len() as int),
    decreases i,
{
    if i == 0 {
        if s.len() == 0 {
            assert(spec_insert_topmost(s, n) =~= s.subrange(0, 0) + seq![n] + s.subrange(0, 0));
        } else {
            assert(spec_insert_topmost(s, n) =~= s.subrange(0, 0) + seq![n] + s.subrange(
                0,
                s.len() as int,
            ));
        }
    } else {
        assert(s[0].stack_index > n.stack_index);
        lemma_insert_topmost_at(s.drop_first(), n, i - 1);
        assert(spec_insert_topmost(s, n) =~= s.subrange(0, i) + seq![n] + s.subrange(
            i,
            s.len() as int,
        ));
    }
}

/// Inserts `n` into a vector ordered by descending paint order, keeping the
/// order.
fn insert_topmost(sorted: &mut Vec<BlurNode>, n: BlurNode)
    ensures
        final(sorted)@ == spec_insert_topmost(old(sorted)@, n),
{
    let mut idx: usize = 0;
    while idx < sorted.len() && sorted[idx].stack_index > n.stack_index
        invariant
            idx <= sorted@.len(),
            sorted@ == old(sorted)@,
            forall|j: int| 0 <= j < idx ==> sorted@[j].stack_index > n.stack_index,
        decreases sorted@.len() - idx,
    {
        idx = idx + 1;
    }
    proof {
        lemma_insert_topmost_at(sorted@, n, idx as int);
    }
    sorted.insert(idx, n);
    assert(sorted@ =~= old(sorted)@.subrange(0, idx as int) + seq![n] + old(sorted)@.subrange(
        idx as int,
        old(sorted)@.len() as int,
    ));
}

/// Orders the nodes from topmost-painted to bottommost-painted.
pub fn sort_topmost_first(nodes: &Vec<BlurNode>) -> (r: Vec<BlurNode>)
    ensures
        r@ == spec_sort_topmost_first(nodes@),
{
    let mut r: Vec<BlurNode> = Vec::new();
    let mut i: usize = 0;
    while i < nodes.len()
        invariant
            i <= nodes.len(),
            r@ == spec_sort_topmost_first(nodes@.subrange(0, i as int)),
        decreases nodes.len() - i,
    {
        insert_topmost(&mut r, nodes[i]);
        proof {
            let upto = nodes@.subrange(0, (i + 1) as int);
            assert(upto.drop_last() =~= nodes@.subrange(0, i as int));
            assert(upto.last() == nodes@[i as int]);
        }
        i = i + 1;
    }
    assert(nodes@.subrange(0, nodes@.len() as int) =~= nodes@);
    r
}

/// The sequence is ordered from topmost-painted to bottommost-painted: paint
/// orders never increase along it.
pub open spec fn spec_ordered_topmost_first(s: Seq<BlurNode>) -> bool {
    forall|i: int, j: int| 0 <= i < j < s.len() ==> s[i].stack_index >= s[j].stack_index
}

/// Inserting keeps any upper bound on the paint orders.
proof fn lemma_insert_topmost_bound(s: Seq<BlurNode>, n: BlurNode, bound: u32)
    requires
        forall|k: int| 0 <= k < s.len() ==> bound >= s[k].stack_index,
        bound >= n.stack_index,
    ensures
        forall|k: int|
            0 <= k < spec_insert_topmost(s, n).len() ==> bound >= spec_insert_topmost(
                s,
                n,
            )[k].stack_index,
    decreases s.len(),
{
    if s.len() == 0 {
    } else if n.stack_index >= s[0].stack_index {
    } else {
        lemma_insert_topmost_bound(s.drop_first(), n, bound);
    }
}

/// Inserting into a sequence ordered by descending paint order keeps it
/// ordered.
proof fn lemma_insert_topmost_ordered(s: Seq<BlurNode>, n: BlurNode)
    requires
        spec_ordered_topmost_first(s),
    ensures
        spec_ordered_topmost_first(spec_insert_topmost(s, n)),
    decreases s.len(),
{
    if s.len() == 0 {
    } else if n.stack_index >= s[0].stack_index {
        let r = seq![n] + s;
        assert forall|i: int, j: int| 0 <= i < j < r.len() implies r[i].stack_index
            >= r[j].stack_index by {
            if i > 0 {
                assert(r[i] == s[i - 1] && r[j] == s[j - 1]);
            } else {
                assert(r[j] == s[j - 1]);
                assert(s[0].stack_index >= s[j - 1].stack_index);
            }
        }
    } else {
        let rest = s.drop_first();
        assert(spec_ordered_topmost_first(rest)) by {
            assert(forall|i: int, j: int|
                0 <= i < j < rest.len() ==> rest[i] == s[i + 1] && rest[j] == s[j + 1]);
        }
        lemma_insert_topmost_ordered(rest, n);
        lemma_insert_topmost_bound(rest, n, s[0].stack_index);
        let t = spec_insert_topmost(rest, n);
        let r = seq![s[0]] + t;
        assert(spec_insert_topmost(s, n) == r);
        assert forall|i: int, j: int| 0 <= i < j < r.len() implies r[i].stack_index
            >= r[j].stack_index by {
            if i > 0 {
                assert(r[i] == t[i - 1] && r[j] == t[j - 1]);
            } else {
                assert(r[j] == t[j - 1]);
            }
        }
    }
}

/// Inserting adds exactly the new node to the sequence's contents.
proof fn lemma_insert_topmost_multiset(s: Seq<BlurNode>, n: BlurNode)
    ensures
        spec_insert_topmost(s, n).to_multiset() == s.to_multiset().insert(n),
    decreases s.len(),
{
    broadcast use vstd::seq_lib::group_to_multiset_ensures;

    if s.len() == 0 {
        assert(seq![n] =~= Seq::<BlurNode>::empty().push(n));
    } else if n.stack_index >= s[0].stack_index {
        vstd::seq_lib::lemma_multiset_commutative(seq![n], s);
        assert(seq![n] =~= Seq::<BlurNode>::empty().push(n));
        assert(seq![n].to_multiset().add(s.to_multiset()) =~= s.to_multiset().insert(n));
    } else {
        let rest = s.drop_first();
        lemma_insert_topmost_multiset(rest, n);
        vstd::seq_lib::lemma_multiset_commutative(seq![s[0]], spec_insert_topmost(rest, n));
        vstd::seq_lib::lemma_multiset_commutative(seq![s[0]], rest);
        assert(seq![s[0]] + rest =~= s);
        assert(seq![s[0]] =~= Seq::<BlurNode>::empty().push(s[0]));
        assert(seq![s[0]].to_multiset().add(rest.to_multiset().insert(n)) =~= s.to_multiset()
            .insert(n));
    }
}

/// For every input, in whatever order the host supplies the nodes, the
/// extraction order is by descending paint order: topmost-painted first.
pub proof fn lemma_sort_topmost_first_ordered(nodes: Seq<BlurNode>)
    ensures
        spec_ordered_topmost_first(spec_sort_topmost_first(nodes)),
    decreases nodes.len(),
{
    if nodes.len() == 0 {
    } else {
        lemma_sort_topmost_first_ordered(nodes.drop_last());
        lemma_insert_topmost_ordered(spec_sort_topmost_first(nodes.drop_last()), nodes.last());
    }
}

/// Extraction loses no node and invents none: ordering the nodes keeps
/// exactly the supplied collection.
pub proof fn lemma_sort_topmost_first_multiset(nodes: Seq<BlurNode>)
    ensures
        spec_sort_topmost_first(nodes).to_multiset() == nodes.to_multiset(),
    decreases nodes.len(),
{
    broadcast use vstd::seq_lib::group_to_multiset_ensures;

    if nodes.len() == 0 {
    } else {
        lemma_sort_topmost_first_multiset(nodes.drop_last());
        lemma_insert_topmost_multiset(
            spec_sort_topmost_first(nodes.drop_last()),
            nodes.last(),
        );
        assert(nodes =~= nodes.drop_last().push(nodes.last()));
    }
}

/// When the paint-order indices are distinct and the nodes are listed by
/// ascending paint order, visiting topmost-painted first is exactly the
/// reverse of the listing.
pub proof fn lemma_topmost_first_reverses_paint_order(nodes: Seq<BlurNode>)
    requires
        forall|i: int, j: int|
            0 <= i < j < nodes.len() ==> nodes[i].stack_index < nodes[j].stack_index,
    ensures
        spec_sort_topmost_first(nodes) == nodes.reverse(),
    decreases nodes.len(),
{
    if nodes.len() == 0 {
        assert(spec_sort_topmost_first(nodes) =~= nodes.reverse());
    } else {
        let prefix = nodes.drop_last();
        lemma_topmost_first_reverses_paint_order(prefix);
        let last = nodes.last();
        if prefix.len() == 0 {
            assert(spec_sort_topmost_first(nodes) =~= nodes.reverse());
        } else {
            assert(prefix.reverse()[0] == prefix[prefix.len() - 1]);
            assert(last.stack_index >= prefix.reverse()[0].stack_index);
            assert(spec_insert_topmost(prefix.reverse(), last) == seq![last] + prefix.reverse());
            assert(spec_sort_topmost_first(nodes) =~= nodes.reverse());
        }
    }
}

/// The extraction step for one surface and one frame.
///
/// `target_resolved` says whether the surface's render target could be
/// mapped to a concrete viewport; when it could not, extraction is skipped
/// entirely and the blur state is left untouched (off-screen-only surfaces
/// are deliberately unsupported). Otherwise the nodes are visited from
/// topmost-painted to bottommost-painted and one region record per node is
/// appended to the surface's blur state — regardless of the node's
/// visibility flag (a documented limitation).
pub fn compute_blur_regions(
    blur_regions: &mut BlurRegionsCamera,
    target_resolved: bool,
    nodes: &Vec<BlurNode>,
)
    ensures
        final(blur_regions).circle_of_confusion == old(blur_regions).circle_of_confusion,
        !target_resolved ==> final(blur_regions).regions@ == old(blur_regions).regions@,
        target_resolved ==> final(blur_regions).regions@ == old(blur_regions).regions@
            + spec_extracted_regions(nodes@),
{
    if !target_resolved {
        return ;
    }
    let sorted = sort_topmost_first(nodes);
    let ghost goal = spec_sort_topmost_first(nodes@).map_values(
        |n: BlurNode| spec_region_of_node(n),
    );
    let mut i: usize = 0;
    while i < sorted.len()
        invariant
            i <= sorted.len(),
            sorted@ == spec_sort_topmost_first(nodes@),
            goal == spec_sort_topmost_first(nodes@).map_values(
                |n: BlurNode| spec_region_of_node(n),
            ),
            blur_regions.circle_of_confusion == old(blur_regions).circle_of_confusion,
            blur_regions.regions@ == old(blur_regions).regions@ + goal.subrange(0, i as int),
        decreases sorted.len() - i,
    {
        let n = sorted[i];
        let radii = BorderRadii {
            top_left: resolve_radius(n.top_left),
            top_right: resolve_radius(n.top_right),
            bottom_right: resolve_radius(n.bottom_right),
            bottom_left: resolve_radius(n.bottom_left),
        };
        let node_settings = match n.settings {
            Some(s) => s,
            None => BlurRegionSettings::default(),
        };
        let ghost prev = blur_regions.regions@;
        blur_regions.rounded_blur(n.rect, radii, node_settings);
        proof {
            lemma_radius_resolution_idempotent(n.top_left);
            lemma_radius_resolution_idempotent(n.top_right);
            lemma_radius_resolution_idempotent(n.bottom_right);
            lemma_radius_resolution_idempotent(n.bottom_left);
            assert(spec_pushed_region(n.rect, radii, node_settings) == spec_region_of_node(
                sorted@[i as int],
            ));
            assert(goal[i as int] == spec_region_of_node(sorted@[i as int]));
            assert(goal.subrange(0, (i + 1) as int) =~= goal.subrange(0, i as int).push(
                goal[i as int],
            ));
            assert(blur_regions.regions@ =~= old(blur_regions).regions@ + goal.subrange(
                0,
                (i + 1) as int,
            ));
        }
        i = i + 1;
    }
    assert(goal.subrange(0, goal.len() as int) =~= goal);
}

} // verus!
