//! Per-region visual parameters and their default baseline.
//!
//! A region carries eleven independently configurable visual parameters.
//! Each is an IEEE-754 binary32 value stored as its bit pattern (see
//! [`crate::scalar`]); the named constants below are the bit patterns of the
//! default baseline values.

use vstd::prelude::*;

verus! {

/// Bit pattern of 1.7, the default glass brightness.
pub const DEFAULT_GLASS_BRIGHTNESS: u32 = 0x3fd9_999a;

/// Bit pattern of 0.2, the default shadow intensity.
pub const DEFAULT_SHADOW_INTENSITY: u32 = 0x3e4c_cccd;

/// Bit pattern of 0.2, the default rim intensity.
pub const DEFAULT_RIM_INTENSITY: u32 = 0x3e4c_cccd;

/// Bit pattern of 2.5, the default rim tightness.
pub const DEFAULT_RIM_TIGHTNESS: u32 = 0x4020_0000;

/// Bit pattern of 0.45, the default black opacity.
pub const DEFAULT_BLACK_OPACITY: u32 = 0x3ee6_6666;

/// Bit pattern of 0.02, the default extra brightness.
pub const DEFAULT_EXTRA_BRIGHTNESS: u32 = 0x3ca3_d70a;

/// Bit pattern of 5.0, the default light intensity.
pub const DEFAULT_LIGHT_INTENSITY: u32 = 0x40a0_0000;

/// Bit pattern of 44.0, the default displacement-falloff start.
pub const DEFAULT_DISPLACEMENT_FALLOFF_START: u32 = 0x4230_0000;

/// Bit pattern of 77.0, the default displacement-falloff width.
pub const DEFAULT_DISPLACEMENT_FALLOFF_WIDTH: u32 = 0x429a_0000;

/// Bit pattern of 3.0, the default specular intensity.
pub const DEFAULT_SPECULAR_INTENSITY: u32 = 0x4040_0000;

/// Bit pattern of 5.0, the default reflection shininess.
pub const DEFAULT_REFLECTION_SHININESS: u32 = 0x40a0_0000;

/// The author-facing visual parameters of one blur region, optionally
/// attached to a marked visual node; a node without settings falls back to
/// [`BlurRegionSettings::default`]. Every field is a binary32 bit pattern.
#[derive(Clone, Copy, PartialEq, Eq, Structural, Debug)]
pub struct BlurRegionSettings {
    pub glass_brightness: u32,
    pub shadow_intensity: u32,
    pub rim_intensity: u32,
    pub rim_tightness: u32,
    pub black_opacity: u32,
    pub extra_brightness: u32,
    pub light_intensity: u32,
    pub displacement_falloff_start: u32,
    pub displacement_falloff_width: u32,
    pub specular_intensity: u32,
    pub reflection_shininess: u32,
}

/// The default baseline settings, field by field.
pub open spec fn spec_default_settings() -> BlurRegionSettings {
    BlurRegionSettings {
        glass_brightness: DEFAULT_GLASS_BRIGHTNESS,
        shadow_intensity: DEFAULT_SHADOW_INTENSITY,
        rim_intensity: DEFAULT_RIM_INTENSITY,
        rim_tightness: DEFAULT_RIM_TIGHTNESS,
        black_opacity: DEFAULT_BLACK_OPACITY,
        extra_brightness: DEFAULT_EXTRA_BRIGHTNESS,
        light_intensity: DEFAULT_LIGHT_INTENSITY,
        displacement_falloff_start: DEFAULT_DISPLACEMENT_FALLOFF_START,
        displacement_falloff_width: DEFAULT_DISPLACEMENT_FALLOFF_WIDTH,
        specular_intensity: DEFAULT_SPECULAR_INTENSITY,
        reflection_shininess: DEFAULT_REFLECTION_SHININESS,
    }
}

impl Default for BlurRegionSettings {
    /// The default baseline: glass brightness 1.7, shadow intensity 0.2, rim
    /// intensity 0.2, rim tightness 2.5, black opacity 0.45, extra brightness
    /// 0.02, light intensity 5.0, displacement falloff starting at 44.0 over a
    /// width of 77.0, specular intensity 3.0, reflection shininess 5.0.
    fn default() -> (r: Self)
        ensures
            r == spec_default_settings(),
    {
        BlurRegionSettings {
            glass_brightness: DEFAULT_GLASS_BRIGHTNESS,
            shadow_intensity: DEFAULT_SHADOW_INTENSITY,
            rim_intensity: DEFAULT_RIM_INTENSITY,
            rim_tightness: DEFAULT_RIM_TIGHTNESS,
            black_opacity: DEFAULT_BLACK_OPACITY,
            extra_brightness: DEFAULT_EXTRA_BRIGHTNESS,
            light_intensity: DEFAULT_LIGHT_INTENSITY,
            displacement_falloff_start: DEFAULT_DISPLACEMENT_FALLOFF_START,
            displacement_falloff_width: DEFAULT_DISPLACEMENT_FALLOFF_WIDTH,
            specular_intensity: DEFAULT_SPECULAR_INTENSITY,
            reflection_shininess: DEFAULT_REFLECTION_SHININESS,
        }
    }
}

} // verus!
