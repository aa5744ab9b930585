use raytracer::perlin::{LatticeHash, POINT_COUNT};
use raytracer::scene::{
    at_least_one, pack_rgba, Preset, ProgressiveRender, SamplingStrategy, SphereMaterialKind,
};
use raytracer::scene_json::{
    check_scene_objects, MaterialDescKind, ObjectShape, ObjectSummary, SceneCheckError,
};

#[test]
fn strategy_modes_decode_with_naive_fallback() {
    assert_eq!(SamplingStrategy::from_mode(0), SamplingStrategy::Naive);
    assert_eq!(SamplingStrategy::from_mode(1), SamplingStrategy::Cosine);
    assert_eq!(SamplingStrategy::from_mode(2), SamplingStrategy::Mixture);
    assert_eq!(SamplingStrategy::from_mode(7), SamplingStrategy::Naive);
}

#[test]
fn preset_ids_decode_with_classic_fallback() {
    assert_eq!(Preset::from_id(0), Preset::Classic);
    assert_eq!(Preset::from_id(1), Preset::CornellBox);
    assert_eq!(Preset::from_id(2), Preset::FoggyRoom);
    assert_eq!(Preset::from_id(3), Preset::DispersivePrism);
    assert_eq!(Preset::from_id(4), Preset::DepthOfField);
    assert_eq!(Preset::from_id(99), Preset::Classic);
}

#[test]
fn material_kinds_decode_with_lambertian_fallback() {
    assert_eq!(SphereMaterialKind::from_kind(0), SphereMaterialKind::Lambertian);
    assert_eq!(SphereMaterialKind::from_kind(1), SphereMaterialKind::Metal);
    assert_eq!(SphereMaterialKind::from_kind(2), SphereMaterialKind::Dielectric);
    assert_eq!(SphereMaterialKind::from_kind(3), SphereMaterialKind::Lambertian);
}

#[test]
fn at_least_one_raises_only_zero() {
    assert_eq!(at_least_one(0), 1);
    assert_eq!(at_least_one(1), 1);
    assert_eq!(at_least_one(40), 40);
}

#[test]
fn progressive_render_starts_cleared() {
    let r = ProgressiveRender::new(3, 2, 0i64, 8);
    assert_eq!(r.pixels().len(), 6);
    assert!(r.pixels().iter().all(|p| *p == 0));
    assert_eq!(r.sample_count(), 0);
    assert_eq!(r.sample_divisor(), 1);
    assert_eq!(r.max_depth(), 8);
    assert_eq!(r.strategy(), SamplingStrategy::Naive);
}

#[test]
fn progressive_render_accumulates_and_resets() {
    let mut r = ProgressiveRender::new(3, 2, 0i64, 8);
    let idx = r.pixel_index(2, 1);
    assert_eq!(idx, 5);
    r.set_pixel(idx, r.pixel(idx) + 4);
    r.record_pass(2);
    assert_eq!(r.sample_count(), 2);
    assert_eq!(r.sample_divisor(), 2);
    assert_eq!(r.pixels()[5], 4);
    r.set_sampling_strategy(2, 0);
    assert_eq!(r.strategy(), SamplingStrategy::Mixture);
    assert_eq!(r.sample_count(), 0);
    assert!(r.pixels().iter().all(|p| *p == 0));
}

#[test]
fn progressive_render_depth_is_never_zero() {
    let mut r = ProgressiveRender::new(1, 1, 0u8, 8);
    r.set_max_depth(0, 0);
    assert_eq!(r.max_depth(), 1);
    r.set_max_depth(12, 0);
    assert_eq!(r.max_depth(), 12);
}

#[test]
fn progressive_render_resize_keeps_strategy_and_depth() {
    let mut r = ProgressiveRender::new(2, 2, 0i32, 5);
    r.set_sampling_strategy(1, 0);
    r.set_pixel(0, 9);
    r.record_pass(1);
    r.resize(4, 3, 0);
    assert_eq!((r.width(), r.height()), (4, 3));
    assert_eq!(r.pixels().len(), 12);
    assert!(r.pixels().iter().all(|p| *p == 0));
    assert_eq!(r.sample_count(), 0);
    assert_eq!(r.strategy(), SamplingStrategy::Cosine);
    assert_eq!(r.max_depth(), 5);
}

#[test]
fn pack_rgba_appends_an_opaque_alpha_to_every_pixel() {
    let out = pack_rgba(&vec![[1, 2, 3], [4, 5, 6]]);
    assert_eq!(out, vec![1, 2, 3, 255, 4, 5, 6, 255]);
    assert_eq!(pack_rgba(&vec![[0, 0, 0]; 10 * 8]).len(), 10 * 8 * 4);
}

#[test]
fn lattice_tables_are_permutations_and_indices_stay_in_range() {
    let h = LatticeHash::new();
    for i in -300isize..300 {
        let idx = h.lattice_index(i, 2 * i, -i);
        assert!(idx < POINT_COUNT as usize);
    }
    // The corner index only depends on each coordinate modulo 256.
    assert_eq!(h.lattice_index(3, -7, 1000), h.lattice_index(3 + 256, -7 - 512, 1000 - 256 * 3));
    assert_eq!(h.lattice_index(isize::MIN, isize::MAX, 0), h.lattice_index(0, 255, 0));
}

fn sphere(radius_positive: bool, material: MaterialDescKind) -> ObjectSummary {
    ObjectSummary { shape: ObjectShape::Sphere { radius_positive }, material }
}

fn quad(material: MaterialDescKind) -> ObjectSummary {
    ObjectSummary { shape: ObjectShape::Quad, material }
}

#[test]
fn scene_check_rejects_an_empty_scene() {
    assert_eq!(check_scene_objects(&vec![]), Err(SceneCheckError::NoObjects));
    assert_eq!(SceneCheckError::NoObjects.message(), "scene must contain at least one object");
}

#[test]
fn scene_check_rejects_a_sphere_without_positive_radius() {
    let objs = vec![
        quad(MaterialDescKind::DiffuseLight),
        sphere(false, MaterialDescKind::Metal),
    ];
    assert_eq!(check_scene_objects(&objs), Err(SceneCheckError::NonPositiveRadius));
    assert_eq!(SceneCheckError::NonPositiveRadius.message(), "sphere radius must be positive");
}

#[test]
fn scene_check_picks_out_light_quads_in_order() {
    let objs = vec![
        sphere(true, MaterialDescKind::DiffuseLight),
        quad(MaterialDescKind::Lambertian),
        quad(MaterialDescKind::DiffuseLight),
        sphere(true, MaterialDescKind::Dispersive),
        quad(MaterialDescKind::DiffuseLight),
    ];
    assert_eq!(check_scene_objects(&objs), Ok(vec![2, 4]));
    assert_eq!(check_scene_objects(&vec![quad(MaterialDescKind::Metal)]), Ok(vec![]));
}

#[test]
fn every_pixel_has_its_own_position_in_the_sums() {
    let r = ProgressiveRender::new(5, 3, 0u8, 1);
    let mut seen = vec![false; 15];
    for j in 0..3 {
        for i in 0..5 {
            let idx = r.pixel_index(i, j);
            assert!(!seen[idx]);
            seen[idx] = true;
        }
    }
    assert!(seen.iter().all(|s| *s));
}
