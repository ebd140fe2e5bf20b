//! Pipeline specialization, the pipeline cache, the compositing plan, and the
//! encoded scalar order.

use blur_regions::compose::{
    first_matching_region, pass_bindings, plan_composite, region_contains, BlurAttachment,
    BlurBinding, CompositePlan,
};
use blur_regions::pipeline::{
    prepare_blur_regions_pipelines, specialize, BlurRegionsPassKey, BlurRegionsPipelineKey,
    SpecializedBlurPipelines,
};
use blur_regions::region::{BorderRadii, ComputedBlurRegion, Rect};
use blur_regions::camera::BlurRegionsCamera;
use blur_regions::scalar::scalar_le;
use blur_regions::settings::BlurRegionSettings;

#[test]
fn specialization_picks_the_variant_by_pass_kind() {
    let h = specialize(BlurRegionsPipelineKey { pass: BlurRegionsPassKey::Horizontal, hdr: false });
    assert_eq!(h.layout, BlurRegionsPassKey::Horizontal);
    assert_eq!(h.shader_def, "HORIZONTAL_PASS");
    assert_eq!(h.entry_point, "horizontal");
    assert!(!h.hdr_target);
    let v = specialize(BlurRegionsPipelineKey { pass: BlurRegionsPassKey::Vertical, hdr: true });
    assert_eq!(v.layout, BlurRegionsPassKey::Vertical);
    assert_eq!(v.shader_def, "VERTICAL_PASS");
    assert_eq!(v.entry_point, "vertical");
    assert!(v.hdr_target);
}

#[test]
fn asking_the_cache_for_the_same_key_twice_returns_the_cached_object() {
    let mut cache = SpecializedBlurPipelines::new();
    let key = BlurRegionsPipelineKey { pass: BlurRegionsPassKey::Horizontal, hdr: true };
    assert_eq!(cache.get(key), None);
    cache.insert(key, 41);
    assert_eq!(cache.get(key), Some(41));
    assert_eq!(cache.get(key), Some(41));
    // Other keys are untouched.
    assert_eq!(cache.get(BlurRegionsPipelineKey { pass: BlurRegionsPassKey::Horizontal, hdr: false }), None);
    assert_eq!(cache.get(BlurRegionsPipelineKey { pass: BlurRegionsPassKey::Vertical, hdr: true }), None);
}

#[test]
fn pass_preparation_needs_both_specialized_pipelines() {
    let mut cache = SpecializedBlurPipelines::new();
    assert!(prepare_blur_regions_pipelines(&cache, false).is_none());
    cache.insert(BlurRegionsPipelineKey { pass: BlurRegionsPassKey::Horizontal, hdr: false }, 7);
    assert!(prepare_blur_regions_pipelines(&cache, false).is_none());
    cache.insert(BlurRegionsPipelineKey { pass: BlurRegionsPassKey::Vertical, hdr: false }, 8);
    let passes = prepare_blur_regions_pipelines(&cache, false).unwrap();
    assert_eq!(passes.horizontal.pipeline, 7);
    assert_eq!(passes.vertical.pipeline, 8);
    assert_eq!(passes.horizontal.pass_label, "blur_regions_horizontal_pass");
    assert_eq!(passes.horizontal.bind_group_label, "blur_regions_bind_group_horizontal");
    assert_eq!(passes.vertical.pass_label, "blur_regions_vertical_pass");
    assert_eq!(passes.vertical.bind_group_label, "blur_regions_bind_group_vertical");
    // The extended-dynamic-range pipelines are cached separately.
    assert!(prepare_blur_regions_pipelines(&cache, true).is_none());
}

#[test]
fn the_two_pass_kinds_have_their_own_binding_signatures() {
    let horizontal = pass_bindings(BlurRegionsPassKey::Horizontal);
    assert_eq!(
        horizontal,
        vec![
            BlurBinding::SourceTexture,
            BlurBinding::Sampler,
            BlurBinding::SettingsBuffer,
            BlurBinding::RegionsBuffer,
        ]
    );
    let vertical = pass_bindings(BlurRegionsPassKey::Vertical);
    assert_eq!(
        vertical,
        vec![
            BlurBinding::IntermediateTexture,
            BlurBinding::SourceTexture,
            BlurBinding::Sampler,
            BlurBinding::SettingsBuffer,
            BlurBinding::RegionsBuffer,
        ]
    );
}

#[test]
fn an_empty_region_sequence_skips_compositing() {
    // No marked nodes anywhere: the state is empty, the count is zero, and
    // the compositor issues no draw call.
    let camera = BlurRegionsCamera::default();
    assert_eq!(camera.regions.len(), 0);
    let plan = plan_composite(camera.regions.len() as u32, true, true, Some(1), Some(2));
    assert!(matches!(plan, CompositePlan::Skip));
}

#[test]
fn missing_resources_skip_compositing() {
    assert!(matches!(plan_composite(3, false, true, Some(1), Some(2)), CompositePlan::Skip));
    assert!(matches!(plan_composite(3, true, false, Some(1), Some(2)), CompositePlan::Skip));
    assert!(matches!(plan_composite(3, true, true, None, Some(2)), CompositePlan::Skip));
    assert!(matches!(plan_composite(3, true, true, Some(1), None), CompositePlan::Skip));
}

#[test]
fn a_ready_surface_composites_horizontal_then_vertical() {
    match plan_composite(3, true, true, Some(10), Some(11)) {
        CompositePlan::Composite { horizontal, vertical } => {
            assert_eq!(horizontal.pipeline, 10);
            assert_eq!(horizontal.output, BlurAttachment::Intermediate);
            assert_eq!(horizontal.bindings[0], BlurBinding::SourceTexture);
            assert_eq!(vertical.pipeline, 11);
            assert_eq!(vertical.output, BlurAttachment::Destination);
            assert_eq!(vertical.bindings[0], BlurBinding::IntermediateTexture);
            assert_eq!(vertical.bindings[1], BlurBinding::SourceTexture);
        }
        CompositePlan::Skip => panic!("expected a composite plan"),
    }
}

#[test]
fn the_encoded_order_matches_the_values() {
    let samples = [
        -f32::INFINITY,
        -300.5,
        -1.0,
        -0.0,
        0.0,
        0.25,
        1.0,
        150.0,
        f32::INFINITY,
        f32::NAN,
    ];
    for &a in &samples {
        for &b in &samples {
            assert_eq!(
                scalar_le(a.to_bits(), b.to_bits()),
                a <= b,
                "{a} <= {b}"
            );
        }
    }
}

#[test]
fn containment_tests_the_rectangle_bounds() {
    let record = ComputedBlurRegion {
        min_x: (-10.0f32).to_bits(),
        max_x: (10.0f32).to_bits(),
        min_y: (0.0f32).to_bits(),
        max_y: (5.0f32).to_bits(),
        border_radii: BorderRadii { top_left: 0, top_right: 0, bottom_right: 0, bottom_left: 0 },
        settings: BlurRegionSettings::default(),
    };
    assert!(region_contains(&record, (0.0f32).to_bits(), (2.5f32).to_bits()));
    assert!(region_contains(&record, (-10.0f32).to_bits(), (0.0f32).to_bits()));
    assert!(!region_contains(&record, (11.0f32).to_bits(), (2.5f32).to_bits()));
    assert!(!region_contains(&record, (0.0f32).to_bits(), (-0.5f32).to_bits()));
}

#[test]
fn degenerate_bounds_contain_no_pixel() {
    let mut camera = BlurRegionsCamera::default();
    // Inverted bounds: permitted to exist, renders as empty.
    camera.blur(
        Rect {
            min_x: (50.0f32).to_bits(),
            max_x: (-50.0f32).to_bits(),
            min_y: (50.0f32).to_bits(),
            max_y: (-50.0f32).to_bits(),
        },
        BlurRegionSettings::default(),
    );
    assert_eq!(
        first_matching_region(&camera.regions, (0.0f32).to_bits(), (0.0f32).to_bits()),
        None
    );
}
