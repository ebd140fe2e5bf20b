//! The per-surface blur state: clear, the four push operations, defaults.

use blur_regions::camera::{BlurRegionsCamera, DEFAULT_CIRCLE_OF_CONFUSION};
use blur_regions::region::{BorderRadii, Rect};
use blur_regions::settings::BlurRegionSettings;
use blur_regions::surfaces::{clear_blur_regions, BlurSurfaces};

fn rect(min_x: f32, max_x: f32, min_y: f32, max_y: f32) -> Rect {
    Rect {
        min_x: min_x.to_bits(),
        max_x: max_x.to_bits(),
        min_y: min_y.to_bits(),
        max_y: max_y.to_bits(),
    }
}

#[test]
fn default_camera_has_no_regions_and_default_strength() {
    let camera = BlurRegionsCamera::default();
    assert_eq!(camera.regions.len(), 0);
    assert_eq!(f32::from_bits(camera.circle_of_confusion), 50.0);
    assert_eq!(camera.circle_of_confusion, DEFAULT_CIRCLE_OF_CONFUSION);
}

#[test]
fn default_settings_match_the_documented_baseline() {
    let s = BlurRegionSettings::default();
    assert_eq!(f32::from_bits(s.glass_brightness), 1.7);
    assert_eq!(f32::from_bits(s.shadow_intensity), 0.2);
    assert_eq!(f32::from_bits(s.rim_intensity), 0.2);
    assert_eq!(f32::from_bits(s.rim_tightness), 2.5);
    assert_eq!(f32::from_bits(s.black_opacity), 0.45);
    assert_eq!(f32::from_bits(s.extra_brightness), 0.02);
    assert_eq!(f32::from_bits(s.light_intensity), 5.0);
    assert_eq!(f32::from_bits(s.displacement_falloff_start), 44.0);
    assert_eq!(f32::from_bits(s.displacement_falloff_width), 77.0);
    assert_eq!(f32::from_bits(s.specular_intensity), 3.0);
    assert_eq!(f32::from_bits(s.reflection_shininess), 5.0);
}

#[test]
fn clear_empties_the_region_sequence() {
    let mut camera = BlurRegionsCamera::default();
    camera.blur(rect(0.0, 10.0, 0.0, 10.0), BlurRegionSettings::default());
    camera.blur(rect(5.0, 15.0, 5.0, 15.0), BlurRegionSettings::default());
    assert_eq!(camera.regions.len(), 2);
    camera.clear();
    assert_eq!(camera.regions.len(), 0);
    assert_eq!(camera.circle_of_confusion, DEFAULT_CIRCLE_OF_CONFUSION);
}

#[test]
fn blur_appends_one_record_with_exact_bounds_and_square_corners() {
    let mut camera = BlurRegionsCamera::default();
    let r = rect(1.5, 20.25, -3.0, 8.0);
    let settings = BlurRegionSettings::default();
    camera.blur(r, settings);
    assert_eq!(camera.regions.len(), 1);
    let record = &camera.regions[0];
    assert_eq!(record.min_x, (1.5f32).to_bits());
    assert_eq!(record.max_x, (20.25f32).to_bits());
    assert_eq!(record.min_y, (-3.0f32).to_bits());
    assert_eq!(record.max_y, (8.0f32).to_bits());
    assert_eq!(record.border_radii, BorderRadii { top_left: 0, top_right: 0, bottom_right: 0, bottom_left: 0 });
    assert_eq!(record.settings, settings);
}

#[test]
fn rounded_blur_appends_the_supplied_radii_clamped_to_non_negative() {
    let mut camera = BlurRegionsCamera::default();
    let radii = BorderRadii {
        top_left: (30.0f32).to_bits(),
        top_right: (-4.0f32).to_bits(),
        bottom_right: (0.0f32).to_bits(),
        bottom_left: f32::NAN.to_bits(),
    };
    camera.rounded_blur(rect(0.0, 100.0, 0.0, 100.0), radii, BlurRegionSettings::default());
    let record = &camera.regions[0];
    assert_eq!(f32::from_bits(record.border_radii.top_left), 30.0);
    assert_eq!(f32::from_bits(record.border_radii.top_right), 0.0);
    assert_eq!(f32::from_bits(record.border_radii.bottom_right), 0.0);
    assert_eq!(f32::from_bits(record.border_radii.bottom_left), 0.0);
}

#[test]
fn blur_all_pushes_in_the_given_order() {
    let mut camera = BlurRegionsCamera::default();
    let rects = vec![
        rect(0.0, 1.0, 0.0, 1.0),
        rect(2.0, 3.0, 2.0, 3.0),
        rect(4.0, 5.0, 4.0, 5.0),
    ];
    camera.blur_all(&rects, BlurRegionSettings::default());
    assert_eq!(camera.regions.len(), 3);
    assert_eq!(f32::from_bits(camera.regions[0].min_x), 0.0);
    assert_eq!(f32::from_bits(camera.regions[1].min_x), 2.0);
    assert_eq!(f32::from_bits(camera.regions[2].min_x), 4.0);
}

#[test]
fn rounded_blur_all_pushes_each_entry_in_order() {
    let mut camera = BlurRegionsCamera::default();
    let mut settings_b = BlurRegionSettings::default();
    settings_b.glass_brightness = (2.0f32).to_bits();
    let radii = BorderRadii {
        top_left: (7.0f32).to_bits(),
        top_right: (7.0f32).to_bits(),
        bottom_right: (7.0f32).to_bits(),
        bottom_left: (7.0f32).to_bits(),
    };
    let entries = vec![
        (rect(0.0, 1.0, 0.0, 1.0), radii, BlurRegionSettings::default()),
        (rect(2.0, 3.0, 2.0, 3.0), radii, settings_b),
    ];
    camera.rounded_blur_all(&entries);
    assert_eq!(camera.regions.len(), 2);
    assert_eq!(f32::from_bits(camera.regions[0].border_radii.top_left), 7.0);
    assert_eq!(camera.regions[1].settings.glass_brightness, (2.0f32).to_bits());
}

#[test]
fn clear_blur_regions_empties_every_surface_and_keeps_strength() {
    let mut surfaces = BlurSurfaces::new();
    let first = surfaces.add(BlurRegionsCamera::default());
    let second = surfaces.add(BlurRegionsCamera::default());
    surfaces
        .get_mut(first)
        .blur(rect(0.0, 1.0, 0.0, 1.0), BlurRegionSettings::default());
    surfaces
        .get_mut(second)
        .blur(rect(0.0, 2.0, 0.0, 2.0), BlurRegionSettings::default());
    surfaces
        .get_mut(second)
        .blur(rect(1.0, 3.0, 1.0, 3.0), BlurRegionSettings::default());
    assert_eq!(surfaces.get(first).regions.len(), 1);
    assert_eq!(surfaces.get(second).regions.len(), 2);
    clear_blur_regions(&mut surfaces);
    assert_eq!(surfaces.len(), 2);
    assert_eq!(surfaces.get(first).regions.len(), 0);
    assert_eq!(surfaces.get(second).regions.len(), 0);
    assert_eq!(surfaces.get(first).circle_of_confusion, DEFAULT_CIRCLE_OF_CONFUSION);
    assert_eq!(surfaces.get(second).circle_of_confusion, DEFAULT_CIRCLE_OF_CONFUSION);
}
