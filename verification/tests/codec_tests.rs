//! The GPU buffer layout: exact offsets, round-trip fidelity, the settings
//! uniform, and the buffer synchronizer's per-frame choice.

use blur_regions::camera::BlurRegionsCamera;
use blur_regions::codec::{deserialize_blur_regions, serialize_blur_regions, REGION_STRIDE};
use blur_regions::region::{BorderRadii, ComputedBlurRegion, Rect};
use blur_regions::settings::BlurRegionSettings;
use blur_regions::sync::{prepare_blur_regions_buffers, serialize_settings, BufferSyncAction, GpuBlurRegionsSettings};

fn sample_record(seed: f32) -> ComputedBlurRegion {
    let mut settings = BlurRegionSettings::default();
    settings.glass_brightness = (seed * 0.5).to_bits();
    settings.reflection_shininess = (seed + 9.25).to_bits();
    ComputedBlurRegion {
        min_x: seed.to_bits(),
        max_x: (seed + 10.0).to_bits(),
        min_y: (seed - 3.5).to_bits(),
        max_y: (seed + 20.0).to_bits(),
        border_radii: BorderRadii {
            top_left: (1.0f32).to_bits(),
            top_right: (2.0f32).to_bits(),
            bottom_right: (3.0f32).to_bits(),
            bottom_left: (4.0f32).to_bits(),
        },
        settings,
    }
}

#[test]
fn one_record_serializes_to_the_documented_layout() {
    let record = sample_record(25.0);
    let regions = vec![record];
    let bytes = serialize_blur_regions(&regions);
    assert_eq!(bytes.len(), REGION_STRIDE);
    assert_eq!(bytes.len(), 80);
    // Bounds at offsets 0, 4, 8, 12.
    assert_eq!(&bytes[0..4], &(25.0f32).to_le_bytes());
    assert_eq!(&bytes[4..8], &(35.0f32).to_le_bytes());
    assert_eq!(&bytes[8..12], &(21.5f32).to_le_bytes());
    assert_eq!(&bytes[12..16], &(45.0f32).to_le_bytes());
    // The radii vector is 16-byte aligned: offsets 16..32.
    assert_eq!(&bytes[16..20], &(1.0f32).to_le_bytes());
    assert_eq!(&bytes[20..24], &(2.0f32).to_le_bytes());
    assert_eq!(&bytes[24..28], &(3.0f32).to_le_bytes());
    assert_eq!(&bytes[28..32], &(4.0f32).to_le_bytes());
    // The eleven visual parameters follow at 32..76, in settings order.
    assert_eq!(&bytes[32..36], &(12.5f32).to_le_bytes());
    assert_eq!(&bytes[36..40], &(0.2f32).to_le_bytes());
    assert_eq!(&bytes[40..44], &(0.2f32).to_le_bytes());
    assert_eq!(&bytes[44..48], &(2.5f32).to_le_bytes());
    assert_eq!(&bytes[48..52], &(0.45f32).to_le_bytes());
    assert_eq!(&bytes[52..56], &(0.02f32).to_le_bytes());
    assert_eq!(&bytes[56..60], &(5.0f32).to_le_bytes());
    assert_eq!(&bytes[60..64], &(44.0f32).to_le_bytes());
    assert_eq!(&bytes[64..68], &(77.0f32).to_le_bytes());
    assert_eq!(&bytes[68..72], &(3.0f32).to_le_bytes());
    assert_eq!(&bytes[72..76], &(34.25f32).to_le_bytes());
    // Alignment padding.
    assert_eq!(&bytes[76..80], &[0u8, 0u8, 0u8, 0u8]);
}

#[test]
fn a_region_sequence_round_trips_field_by_field() {
    let regions = vec![sample_record(25.0), sample_record(-8.0), sample_record(0.125)];
    let bytes = serialize_blur_regions(&regions);
    assert_eq!(bytes.len(), 3 * REGION_STRIDE);
    let read_back = deserialize_blur_regions(&bytes).unwrap();
    assert_eq!(read_back, regions);
}

#[test]
fn the_empty_sequence_round_trips() {
    let regions: Vec<ComputedBlurRegion> = Vec::new();
    let bytes = serialize_blur_regions(&regions);
    assert_eq!(bytes.len(), 0);
    let read_back = deserialize_blur_regions(&bytes).unwrap();
    assert_eq!(read_back.len(), 0);
}

#[test]
fn a_torn_buffer_is_rejected() {
    let regions = vec![sample_record(25.0)];
    let mut bytes = serialize_blur_regions(&regions);
    bytes.pop();
    assert_eq!(deserialize_blur_regions(&bytes), None);
}

#[test]
fn the_settings_uniform_is_diameter_then_count() {
    let settings = GpuBlurRegionsSettings {
        circle_of_confusion: (50.0f32).to_bits(),
        regions_count: 7,
    };
    let bytes = serialize_settings(&settings);
    assert_eq!(bytes.len(), 8);
    assert_eq!(&bytes[0..4], &(50.0f32).to_le_bytes());
    assert_eq!(&bytes[4..8], &7u32.to_le_bytes());
}

#[test]
fn no_blur_surface_disables_the_region_buffer() {
    let action = prepare_blur_regions_buffers(None);
    assert!(matches!(action, BufferSyncAction::DisableRegions));
}

#[test]
fn an_empty_state_uploads_a_count_of_zero() {
    let camera = BlurRegionsCamera::default();
    match prepare_blur_regions_buffers(Some(&camera)) {
        BufferSyncAction::Upload { settings, settings_bytes, regions_bytes } => {
            assert_eq!(settings.regions_count, 0);
            assert_eq!(settings.circle_of_confusion, camera.circle_of_confusion);
            assert_eq!(regions_bytes.len(), 0);
            assert_eq!(&settings_bytes[4..8], &0u32.to_le_bytes());
        }
        BufferSyncAction::DisableRegions => panic!("expected an upload"),
    }
}

#[test]
fn a_populated_state_uploads_its_records_verbatim() {
    let mut camera = BlurRegionsCamera::default();
    camera.blur(
        Rect {
            min_x: (10.0f32).to_bits(),
            max_x: (20.0f32).to_bits(),
            min_y: (30.0f32).to_bits(),
            max_y: (40.0f32).to_bits(),
        },
        BlurRegionSettings::default(),
    );
    match prepare_blur_regions_buffers(Some(&camera)) {
        BufferSyncAction::Upload { settings, regions_bytes, .. } => {
            assert_eq!(settings.regions_count, 1);
            assert_eq!(regions_bytes.len(), REGION_STRIDE);
            let read_back = deserialize_blur_regions(&regions_bytes).unwrap();
            assert_eq!(read_back, camera.regions);
        }
        BufferSyncAction::DisableRegions => panic!("expected an upload"),
    }
}
