//! The two-pass compositor: the per-surface, per-frame render protocol.
//!
//! Each frame a surface either ends "skipped" - the destination image stays
//! equal to the source and no draw call is issued - or "composited": a
//! horizontal pass reads the source image and writes an intermediate image
//! matching the source's dimensions, sample count and format, then a vertical
//! pass reads the intermediate and the original source and writes the final
//! destination. Splitting the 2-D blur into two 1-D passes is deliberate: it
//! makes the cost linear instead of quadratic in the kernel radius.
//!
//! [`plan_composite`] is the decision: it skips when the region sequence is
//! empty, when a required buffer binding is missing, or when either
//! specialized pipeline has not finished compiling - any missing resource
//! degrades to "no blur this frame", never to an error, and the effect
//! self-heals the next frame because everything is rebuilt from scratch.
//! [`first_matching_region`] is the overlap policy both passes follow per
//! pixel: a linear scan with early exit, so a pixel covered by several
//! stacked regions takes the settings of the record pushed first (the
//! visually topmost node). The scan tests the rectangle bounds; rounding the
//! test at the corners by the record's radii is part of the shading stage's
//! kernel math, whose pixel-level arithmetic is outside this library.

use vstd::prelude::*;
use crate::pipeline::BlurRegionsPassKey;
use crate::region::ComputedBlurRegion;
use crate::scalar::le_bits;

verus! {

/// One resource slot of a pass's bind group, in binding order.
#[derive(Clone, Copy, PartialEq, Eq, Structural, Debug)]
pub enum BlurBinding {
    /// The original scene image.
    SourceTexture,
    /// The intermediate image the horizontal pass wrote.
    IntermediateTexture,
    /// The shared clamping sampler.
    Sampler,
    /// The settings uniform buffer.
    SettingsBuffer,
    /// The region storage buffer.
    RegionsBuffer,
}

/// The image a pass writes.
#[derive(Clone, Copy, PartialEq, Eq, Structural, Debug)]
pub enum BlurAttachment {
    /// The intermediate image allocated for this frame.
    Intermediate,
    /// The surface's final destination image.
    Destination,
}

/// The resource-binding signature of each pass kind: the horizontal pass
/// binds the source image, the vertical pass binds the intermediate image
/// plus the original source; both bind the sampler, the settings buffer and
/// the region buffer after the images.
pub open spec fn spec_pass_bindings(pass: BlurRegionsPassKey) -> Seq<BlurBinding> {
    match pass {
        BlurRegionsPassKey::Horizontal => seq![
            BlurBinding::SourceTexture,
            BlurBinding::Sampler,
            BlurBinding::SettingsBuffer,
            BlurBinding::RegionsBuffer,
        ],
        BlurRegionsPassKey::Vertical => seq![
            BlurBinding::IntermediateTexture,
            BlurBinding::SourceTexture,
            BlurBinding::Sampler,
            BlurBinding::SettingsBuffer,
            BlurBinding::RegionsBuffer,
        ],
    }
}

/// The binding order of one pass kind, for building the bind group layout and
/// the bind group itself.
pub fn pass_bindings(pass: BlurRegionsPassKey) -> (r: Vec<BlurBinding>)
    ensures
        r@ == spec_pass_bindings(pass),
{
    let mut r: Vec<BlurBinding> = Vec::new();
    match pass {
        BlurRegionsPassKey::Horizontal => {
            r.push(BlurBinding::SourceTexture);
            r.push(BlurBinding::Sampler);
            r.push(BlurBinding::SettingsBuffer);
            r.push(BlurBinding::RegionsBuffer);
        },
        BlurRegionsPassKey::Vertical => {
            r.push(BlurBinding::IntermediateTexture);
            r.push(BlurBinding::SourceTexture);
            r.push(BlurBinding::Sampler);
            r.push(BlurBinding::SettingsBuffer);
            r.push(BlurBinding::RegionsBuffer);
        },
    }
    assert(r@ =~= spec_pass_bindings(pass));
    r
}

/// One full-surface draw: the pipeline to bind, the resources in binding
/// order, and the image to write.
pub struct PassInvocation {
    pub pipeline: u64,
    pub bindings: Vec<BlurBinding>,
    pub output: BlurAttachment,
}

/// The per-surface outcome of one frame.
pub enum CompositePlan {
    /// Leave the destination equal to the source; issue no draw call.
    Skip,
    /// Run the horizontal pass into the intermediate image, then the vertical
    /// pass into the destination.
    Composite { horizontal: PassInvocation, vertical: PassInvocation },
}

/// The compositor's precondition check and pass plan for one surface.
///
/// `regions_count` is the length of the serialized region sequence;
/// `settings_ready` and `regions_ready` say whether the two buffer bindings
/// exist; the two pipeline arguments carry the compiled pipeline for each
/// pass kind, or `None` while compilation has not finished.
pub fn plan_composite(
    regions_count: u32,
    settings_ready: bool,
    regions_ready: bool,
    horizontal_pipeline: Option<u64>,
    vertical_pipeline: Option<u64>,
) -> (r: CompositePlan)
    ensures
        r is Skip <==> (regions_count == 0 || !settings_ready || !regions_ready
            || horizontal_pipeline is None || vertical_pipeline is None),
        r matches CompositePlan::Composite { horizontal, vertical } ==> {
            &&& Some(horizontal.pipeline) == horizontal_pipeline
            &&& horizontal.bindings@ == spec_pass_bindings(BlurRegionsPassKey::Horizontal)
            &&& horizontal.output == BlurAttachment::Intermediate
            &&& Some(vertical.pipeline) == vertical_pipeline
            &&& vertical.bindings@ == spec_pass_bindings(BlurRegionsPassKey::Vertical)
            &&& vertical.output == BlurAttachment::Destination
        },
{
    if regions_count == 0 || !settings_ready || !regions_ready {
        return CompositePlan::Skip;
    }
    match (horizontal_pipeline, vertical_pipeline) {
        (Some(h), Some(v)) => CompositePlan::Composite {
            horizontal: PassInvocation {
                pipeline: h,
                bindings: pass_bindings(BlurRegionsPassKey::Horizontal),
                output: BlurAttachment::Intermediate,
            },
            vertical: PassInvocation {
                pipeline: v,
                bindings: pass_bindings(BlurRegionsPassKey::Vertical),
                output: BlurAttachment::Destination,
            },
        },
        _ => CompositePlan::Skip,
    }
}

/// Whether the pixel at `(x, y)` lies inside the record's rectangle bounds;
/// the coordinates compare as the binary32 values they encode, so a record
/// with inverted, degenerate or NaN bounds contains no pixel.
pub open spec fn spec_region_contains(r: ComputedBlurRegion, x: u32, y: u32) -> bool {
    &&& le_bits(r.min_x, x)
    &&& le_bits(x, r.max_x)
    &&& le_bits(r.min_y, y)
    &&& le_bits(y, r.max_y)
}

/// Whether the pixel at `(x, y)` lies inside the record's rectangle bounds.
pub fn region_contains(r: &ComputedBlurRegion, x: u32, y: u32) -> (b: bool)
    ensures
        b == spec_region_contains(*r, x, y),
{
    crate::scalar::scalar_le(r.min_x, x) && crate::scalar::scalar_le(x, r.max_x)
        && crate::scalar::scalar_le(r.min_y, y) && crate::scalar::scalar_le(y, r.max_y)
}

/// The overlap policy: the first record in the array that contains the pixel
/// wins. A linear scan with early exit on the first containment match - a
/// deliberate cost of one test per region and pixel, not a spatial index.
pub fn first_matching_region(regions: &Vec<ComputedBlurRegion>, x: u32, y: u32) -> (r: Option<
    usize,
>)
    ensures
        r matches Some(i) ==> {
            &&& i < regions@.len()
            &&& spec_region_contains(regions@[i as int], x, y)
            &&& forall|j: int| 0 <= j < i ==> !spec_region_contains(regions@[j], x, y)
        },
        r is None ==> forall|j: int|
            0 <= j < regions@.len() ==> !spec_region_contains(regions@[j], x, y),
{
    let mut i: usize = 0;
    while i < regions.len()
        invariant
            i <= regions@.len(),
            forall|j: int| 0 <= j < i ==> !spec_region_contains(regions@[j], x, y),
        decreases regions@.len() - i,
    {
        if region_contains(&regions[i], x, y) {
            return Some(i);
        }
        i = i + 1;
    }
    None
}

} // verus!
