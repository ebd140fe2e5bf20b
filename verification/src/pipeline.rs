//! The pipeline builder: specializing and caching the two pass variants.
//!
//! There are two logical pass kinds, horizontal and vertical, each with its
//! own resource-binding signature (see [`crate::compose`]). A render pipeline
//! is specialized per pass kind and output color precision - standard or
//! extended dynamic range - so at most four pipelines exist. Compiling is the
//! host graphics device's work; this module decides, per key, what to compile
//! ([`specialize`]), remembers what was compiled
//! ([`SpecializedBlurPipelines`]), and assembles the per-surface pass pair
//! ([`prepare_blur_regions_pipelines`]). Asking for a key that is already
//! cached returns the cached object and changes nothing.

use vstd::prelude::*;

verus! {

/// The two pass kinds of the separable blur.
#[derive(Clone, Copy, PartialEq, Eq, Structural, Debug, Hash)]
pub enum BlurRegionsPassKey {
    Horizontal,
    Vertical,
}

/// What a pipeline is specialized by: the pass kind and whether the surface's
/// output format is the extended-dynamic-range one.
#[derive(Clone, Copy, PartialEq, Eq, Structural, Debug, Hash)]
pub struct BlurRegionsPipelineKey {
    pub pass: BlurRegionsPassKey,
    pub hdr: bool,
}

/// What to hand the graphics device for one key: which binding layout the
/// pipeline uses, which shader variant to select, which fragment entry point
/// to run, and whether the color target is the extended-dynamic-range format
/// (else the platform default).
pub struct BlurRegionsPipelineDescriptor {
    pub layout: BlurRegionsPassKey,
    pub shader_def: &'static str,
    pub entry_point: &'static str,
    pub hdr_target: bool,
}

/// The specialization decision for one key.
pub fn specialize(key: BlurRegionsPipelineKey) -> (r: BlurRegionsPipelineDescriptor)
    ensures
        r.layout == key.pass,
        r.hdr_target == key.hdr,
        key.pass == BlurRegionsPassKey::Horizontal ==> r.shader_def@ == "HORIZONTAL_PASS"@
            && r.entry_point@ == "horizontal"@,
        key.pass == BlurRegionsPassKey::Vertical ==> r.shader_def@ == "VERTICAL_PASS"@
            && r.entry_point@ == "vertical"@,
{
    match key.pass {
        BlurRegionsPassKey::Horizontal => BlurRegionsPipelineDescriptor {
            layout: BlurRegionsPassKey::Horizontal,
            shader_def: "HORIZONTAL_PASS",
            entry_point: "horizontal",
            hdr_target: key.hdr,
        },
        BlurRegionsPassKey::Vertical => BlurRegionsPipelineDescriptor {
            layout: BlurRegionsPassKey::Vertical,
            shader_def: "VERTICAL_PASS",
            entry_point: "vertical",
            hdr_target: key.hdr,
        },
    }
}

/// The cache of specialized pipelines, one slot per key. A pipeline is an
/// opaque identifier the host's pipeline cache handed out when the descriptor
/// was queued for compilation.
pub struct SpecializedBlurPipelines {
    horizontal_standard: Option<u64>,
    horizontal_extended: Option<u64>,
    vertical_standard: Option<u64>,
    vertical_extended: Option<u64>,
}

impl SpecializedBlurPipelines {
    /// The cached pipeline for a key, if one was inserted.
    pub closed spec fn spec_get(&self, key: BlurRegionsPipelineKey) -> Option<u64> {
        match (key.pass, key.hdr) {
            (BlurRegionsPassKey::Horizontal, false) => self.horizontal_standard,
            (BlurRegionsPassKey::Horizontal, true) => self.horizontal_extended,
            (BlurRegionsPassKey::Vertical, false) => self.vertical_standard,
            (BlurRegionsPassKey::Vertical, true) => self.vertical_extended,
        }
    }

    /// An empty cache: nothing specialized yet.
    pub fn new() -> (r: SpecializedBlurPipelines)
        ensures
            forall|key: BlurRegionsPipelineKey| r.spec_get(key) is None,
    {
        SpecializedBlurPipelines {
            horizontal_standard: None,
            horizontal_extended: None,
            vertical_standard: None,
            vertical_extended: None,
        }
    }

    /// The cached pipeline for a key: asking again for a key that was
    /// inserted returns the same object, and asking changes nothing.
    pub fn get(&self, key: BlurRegionsPipelineKey) -> (r: Option<u64>)
        ensures
            r == self.spec_get(key),
    {
        match (key.pass, key.hdr) {
            (BlurRegionsPassKey::Horizontal, false) => self.horizontal_standard,
            (BlurRegionsPassKey::Horizontal, true) => self.horizontal_extended,
            (BlurRegionsPassKey::Vertical, false) => self.vertical_standard,
            (BlurRegionsPassKey::Vertical, true) => self.vertical_extended,
        }
    }

    /// Records the pipeline compiled for a key; every other key's slot is
    /// untouched.
    pub fn insert(&mut self, key: BlurRegionsPipelineKey, pipeline: u64)
        ensures
            final(self).spec_get(key) == Some(pipeline),
            forall|other: BlurRegionsPipelineKey|
                other != key ==> final(self).spec_get(other) == old(self).spec_get(other),
    {
        match (key.pass, key.hdr) {
            (BlurRegionsPassKey::Horizontal, false) => {
                self.horizontal_standard = Some(pipeline);
            },
            (BlurRegionsPassKey::Horizontal, true) => {
                self.horizontal_extended = Some(pipeline);
            },
            (BlurRegionsPassKey::Vertical, false) => {
                self.vertical_standard = Some(pipeline);
            },
            (BlurRegionsPassKey::Vertical, true) => {
                self.vertical_extended = Some(pipeline);
            },
        }
    }
}

/// One of the two passes a surface runs: the labels the host gives the render
/// pass and its bind group, and the specialized pipeline to bind.
pub struct BlurRegionsPass {
    pub pass_label: &'static str,
    pub bind_group_label: &'static str,
    pub pipeline: u64,
}

/// The pass pair of one surface and one frame: horizontal first, vertical
/// second.
pub struct BlurRegionsPasses {
    pub horizontal: BlurRegionsPass,
    pub vertical: BlurRegionsPass,
}

/// The per-surface pipeline preparation step: picks the two specialized
/// pipelines for the surface's color precision out of the cache and labels
/// the passes. `None` when either key has not been specialized yet; the
/// compositor then skips the surface this frame.
pub fn prepare_blur_regions_pipelines(
    pipelines: &SpecializedBlurPipelines,
    hdr: bool,
) -> (r: Option<BlurRegionsPasses>)
    ensures
        r is Some <==> {
            &&& pipelines.spec_get(
                BlurRegionsPipelineKey { pass: BlurRegionsPassKey::Horizontal, hdr },
            ) is Some
            &&& pipelines.spec_get(
                BlurRegionsPipelineKey { pass: BlurRegionsPassKey::Vertical, hdr },
            ) is Some
        },
        r matches Some(p) ==> {
            &&& Some(p.horizontal.pipeline) == pipelines.spec_get(
                BlurRegionsPipelineKey { pass: BlurRegionsPassKey::Horizontal, hdr },
            )
            &&& Some(p.vertical.pipeline) == pipelines.spec_get(
                BlurRegionsPipelineKey { pass: BlurRegionsPassKey::Vertical, hdr },
            )
            &&& p.horizontal.pass_label@ == "blur_regions_horizontal_pass"@
            &&& p.horizontal.bind_group_label@ == "blur_regions_bind_group_horizontal"@
            &&& p.vertical.pass_label@ == "blur_regions_vertical_pass"@
            &&& p.vertical.bind_group_label@ == "blur_regions_bind_group_vertical"@
        },
{
    let horizontal_pipeline = pipelines.get(
        BlurRegionsPipelineKey { pass: BlurRegionsPassKey::Horizontal, hdr },
    );
    let vertical_pipeline = pipelines.get(
        BlurRegionsPipelineKey { pass: BlurRegionsPassKey::Vertical, hdr },
    );
    match (horizontal_pipeline, vertical_pipeline) {
        (Some(h), Some(v)) => Some(
            BlurRegionsPasses {
                horizontal: BlurRegionsPass {
                    pass_label: "blur_regions_horizontal_pass",
                    bind_group_label: "blur_regions_bind_group_horizontal",
                    pipeline: h,
                },
                vertical: BlurRegionsPass {
                    pass_label: "blur_regions_vertical_pass",
                    bind_group_label: "blur_regions_bind_group_vertical",
                    pipeline: v,
                },
            },
        ),
        _ => None,
    }
}

} // verus!
