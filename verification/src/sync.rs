//! The buffer synchronizer: choosing and serializing the state the GPU sees.
//!
//! Once per frame, after extraction, a single blur state is exposed to the
//! GPU: the first blur-enabled surface encountered, arbitrarily. Multi-surface
//! blur is not supported by the buffer layer even though every surface keeps
//! its own state - a documented scaling limit, preserved here. When no
//! blur-enabled surface exists the region buffer is cleared to empty and
//! re-uploaded, which disables the effect everywhere. Uploads happen
//! unconditionally every frame; there is no dirty-bit skip.

use vstd::prelude::*;
use crate::camera::BlurRegionsCamera;
use crate::codec::{push_u32_le, serialize_blur_regions, spec_encode_regions, u32_le_bytes};

verus! {

/// The transient settings record rebuilt every frame from the state chosen
/// for upload: the blur diameter (a binary32 bit pattern) and the number of
/// serialized regions.
#[derive(Clone, Copy, PartialEq, Eq, Structural, Debug)]
pub struct GpuBlurRegionsSettings {
    pub circle_of_confusion: u32,
    pub regions_count: u32,
}

/// The settings uniform layout: the blur diameter followed by the region
/// count, both little-endian 4-byte values.
pub open spec fn spec_encode_settings(s: GpuBlurRegionsSettings) -> Seq<u8> {
    u32_le_bytes(s.circle_of_confusion) + u32_le_bytes(s.regions_count)
}

/// Serializes the settings record into its uniform layout.
pub fn serialize_settings(s: &GpuBlurRegionsSettings) -> (out: Vec<u8>)
    ensures
        out@ == spec_encode_settings(*s),
{
    let mut out: Vec<u8> = Vec::new();
    push_u32_le(&mut out, s.circle_of_confusion);
    push_u32_le(&mut out, s.regions_count);
    out
}

/// What the host must do to the GPU-visible buffers this frame.
pub enum BufferSyncAction {
    /// No blur-enabled surface exists: overwrite the region buffer with the
    /// empty contents, which disables the effect everywhere.
    DisableRegions,
    /// Upload the settings record and the serialized region array of the
    /// chosen surface, overwriting both buffers wholesale.
    Upload { settings: GpuBlurRegionsSettings, settings_bytes: Vec<u8>, regions_bytes: Vec<u8> },
}

/// The per-frame buffer synchronization step: given the blur state chosen for
/// upload (the first blur-enabled surface, or none), produce what to write to
/// the GPU-visible buffers. The settings record carries the chosen state's
/// blur diameter and region count; the region array is serialized verbatim.
pub fn prepare_blur_regions_buffers(camera: Option<&BlurRegionsCamera>) -> (r: BufferSyncAction)
    requires
        camera matches Some(c) ==> c.regions@.len() <= u32::MAX,
    ensures
        camera is None ==> r is DisableRegions,
        camera matches Some(c) ==> r matches BufferSyncAction::Upload {
            settings,
            settings_bytes,
            regions_bytes,
        } && {
            &&& settings.circle_of_confusion == c.circle_of_confusion
            &&& settings.regions_count == c.regions@.len()
            &&& settings_bytes@ == spec_encode_settings(settings)
            &&& regions_bytes@ == spec_encode_regions(c.regions@)
        },
{
    match camera {
        None => BufferSyncAction::DisableRegions,
        Some(c) => {
            let settings = GpuBlurRegionsSettings {
                circle_of_confusion: c.circle_of_confusion,
                regions_count: c.regions.len() as u32,
            };
            let settings_bytes = serialize_settings(&settings);
            let regions_bytes = serialize_blur_regions(&c.regions);
            BufferSyncAction::Upload { settings, settings_bytes, regions_bytes }
        },
    }
}

} // verus!
