use raytracer::bundle::BundleTrace;
use raytracer::scene::SamplingStrategy;
use raytracer::trace::{encode_paths, BouncePlan, Channel, SampleSource, Termination, WireValue};

#[test]
fn a_single_path_escapes_after_one_bounce() {
    let mut b: BundleTrace<u32, &str> = BundleTrace::new("primary", 4, SamplingStrategy::Mixture, true);
    assert!(b.take_next());
    assert_eq!(*b.front_ray(), "primary");
    assert_eq!(b.front_channel(), Channel::Neutral);
    b.land_front(1);
    assert_eq!(b.plan_front(false, false), BouncePlan::PdfSample);
    assert!(b.may_aim_at_light());
    b.follow_front("bounce", false, false, true);
    assert!(b.take_next());
    assert_eq!(*b.front_ray(), "bounce");
    b.escape_front(2);
    assert!(!b.take_next());
    let paths = b.into_paths();
    assert_eq!(paths.len(), 1);
    assert_eq!(paths[0].points(), &vec![1, 2]);
    assert_eq!(paths[0].sources(), &vec![SampleSource::NotSampled, SampleSource::Light]);
    assert_eq!(paths[0].termination(), Termination::Escaped);
}

#[test]
fn a_dispersive_split_gives_at_most_three_channel_paths() {
    let mut b: BundleTrace<u32, u8> = BundleTrace::new(0, 8, SamplingStrategy::Cosine, false);
    assert!(b.take_next());
    b.land_front(10);
    assert_eq!(b.plan_front(true, true), BouncePlan::Split);
    b.split_front(Some(1), Some(2), Some(3));
    let mut seen = Vec::new();
    while b.take_next() {
        let ch = b.front_channel();
        seen.push(ch);
        b.land_front(20);
        b.finish_front(Termination::Emitted);
    }
    assert_eq!(seen, vec![Channel::Red, Channel::Green, Channel::Blue]);
    let paths = b.into_paths();
    assert_eq!(paths.len(), 3);
    for p in &paths {
        assert_eq!(p.points(), &vec![10, 20]);
        assert_eq!(p.sources(), &vec![SampleSource::NotSampled, SampleSource::NotSampled]);
        assert_eq!(p.termination(), Termination::Emitted);
    }
}

#[test]
fn a_split_skips_the_channels_the_material_does_not_refract() {
    let mut b: BundleTrace<u32, u8> = BundleTrace::new(0, 3, SamplingStrategy::Naive, false);
    assert!(b.take_next());
    b.land_front(5);
    b.split_front(Some(1), None, Some(3));
    let mut seen = Vec::new();
    while b.take_next() {
        seen.push((b.front_channel(), *b.front_ray()));
        b.land_front(6);
        assert_eq!(b.plan_front(true, false), BouncePlan::FollowChannel(b.front_channel()));
        b.finish_front(Termination::Absorbed);
    }
    assert_eq!(seen, vec![(Channel::Red, 1), (Channel::Blue, 3)]);
    assert_eq!(b.into_paths().len(), 2);
}

#[test]
fn paths_still_bouncing_after_the_last_depth_are_absorbed() {
    let mut b: BundleTrace<u32, u8> = BundleTrace::new(0, 2, SamplingStrategy::Naive, false);
    let mut depth = 0;
    while b.take_next() {
        depth += 1;
        b.land_front(depth);
        b.follow_front(depth as u8, false, false, false);
    }
    assert_eq!(depth, 2);
    let paths = b.into_paths();
    assert_eq!(paths.len(), 1);
    assert_eq!(paths[0].points(), &vec![1, 2]);
    assert_eq!(paths[0].termination(), Termination::Absorbed);
}

#[test]
fn a_zero_depth_limit_still_traces_one_depth() {
    let mut b: BundleTrace<u32, u8> = BundleTrace::new(0, 0, SamplingStrategy::Naive, false);
    let mut depth = 0;
    while b.take_next() {
        depth += 1;
        b.land_front(depth);
        b.follow_front(1, false, false, false);
    }
    assert_eq!(depth, 1);
    let paths = b.into_paths();
    assert_eq!(paths[0].points(), &vec![1]);
}

#[test]
fn naive_sampling_tags_every_vertex_as_not_sampled() {
    let mut b: BundleTrace<u32, u8> = BundleTrace::new(0, 5, SamplingStrategy::Naive, true);
    assert!(!b.may_aim_at_light());
    let mut depth = 0;
    while b.take_next() {
        depth += 1;
        b.land_front(depth);
        assert_eq!(b.plan_front(false, false), BouncePlan::MaterialScatter);
        b.follow_front(1, false, false, false);
    }
    let paths = b.into_paths();
    assert_eq!(paths[0].points().len(), 5);
    assert!(paths[0].sources().iter().all(|s| *s == SampleSource::NotSampled));
}

#[test]
fn cosine_sampling_tags_diffuse_bounces_and_not_specular_ones() {
    let mut b: BundleTrace<u32, u8> = BundleTrace::new(0, 3, SamplingStrategy::Cosine, true);
    assert!(!b.may_aim_at_light());
    assert!(b.take_next());
    b.land_front(1);
    b.follow_front(1, false, false, false);
    assert!(b.take_next());
    b.land_front(2);
    assert_eq!(b.plan_front(false, true), BouncePlan::MaterialScatter);
    b.follow_front(2, false, true, false);
    assert!(b.take_next());
    b.land_front(3);
    b.finish_front(Termination::Emitted);
    let paths = b.into_paths();
    assert_eq!(
        paths[0].sources(),
        &vec![SampleSource::NotSampled, SampleSource::Cosine, SampleSource::NotSampled]
    );
}

#[test]
fn mixture_without_lights_never_aims_at_a_light() {
    let b: BundleTrace<u32, u8> = BundleTrace::new(0, 3, SamplingStrategy::Mixture, false);
    assert!(!b.may_aim_at_light());
}

#[test]
fn one_bounce_at_depth_one_encodes_ten_numbers() {
    let mut b: BundleTrace<(i32, i32), u8> = BundleTrace::new(0, 1, SamplingStrategy::Naive, false);
    assert!(b.take_next());
    b.land_front((1, -1));
    b.follow_front(1, false, true, false);
    assert!(!b.take_next());
    let paths = b.into_paths();
    let projections = vec![vec![Some((14.75f64, 9.5f64))]];
    let out = encode_paths(&paths, (15.0f64, 10.0f64), &projections);
    assert_eq!(
        out,
        vec![
            WireValue::Count(1),
            WireValue::Tag(1),
            WireValue::Tag(-1),
            WireValue::Count(2),
            WireValue::Coord(15.0),
            WireValue::Coord(10.0),
            WireValue::Coord(14.75),
            WireValue::Coord(9.5),
            WireValue::Tag(-1),
            WireValue::Tag(-1),
        ]
    );
}
