use raytracer::scene::SamplingStrategy;
use raytracer::trace::{direction_sampler, DirectionSampler};
use raytracer::trace::{
    bundle_size, encode_direction_tips, encode_paths, may_sample_lights, plan_bounce,
    ActivePath, BouncePlan, Channel, SampleSource, Termination, WireValue,
};

#[test]
fn plan_splits_only_neutral_paths_at_dispersive_surfaces() {
    assert_eq!(plan_bounce(Channel::Neutral, true, true, SamplingStrategy::Naive), BouncePlan::Split);
    assert_eq!(
        plan_bounce(Channel::Green, true, true, SamplingStrategy::Mixture),
        BouncePlan::FollowChannel(Channel::Green)
    );
    assert_eq!(
        plan_bounce(Channel::Neutral, false, false, SamplingStrategy::Cosine),
        BouncePlan::PdfSample
    );
    assert_eq!(
        plan_bounce(Channel::Neutral, false, true, SamplingStrategy::Mixture),
        BouncePlan::MaterialScatter
    );
    assert_eq!(
        plan_bounce(Channel::Neutral, false, false, SamplingStrategy::Naive),
        BouncePlan::MaterialScatter
    );
}

#[test]
fn lights_are_sampled_only_under_mixture_with_lights() {
    assert!(may_sample_lights(SamplingStrategy::Mixture, true));
    assert!(!may_sample_lights(SamplingStrategy::Mixture, false));
    assert!(!may_sample_lights(SamplingStrategy::Cosine, true));
}

#[test]
fn bundle_size_is_six_with_defocus() {
    assert_eq!(bundle_size(true), 6);
    assert_eq!(bundle_size(false), 1);
}

#[test]
fn wire_tags_match_the_front_end_codes() {
    assert_eq!(Termination::Escaped.code(), 0);
    assert_eq!(Termination::Absorbed.code(), 1);
    assert_eq!(Termination::Emitted.code(), 2);
    assert_eq!(Channel::Neutral.tag(), -1);
    assert_eq!(Channel::Blue.tag(), 2);
    assert_eq!(SampleSource::NotSampled.tag(), -1);
    assert_eq!(SampleSource::Cosine.tag(), 0);
    assert_eq!(SampleSource::Light.tag(), 1);
}

#[test]
fn a_path_records_the_source_of_each_ray_that_reached_a_vertex() {
    let mut a: ActivePath<u32, &str> = ActivePath::primary("r0");
    a.land(10);
    let a = a.follow("r1", BouncePlan::PdfSample, true);
    let mut a = a;
    a.land(11);
    let a = a.follow("r2", BouncePlan::PdfSample, false);
    let t = a.escape(12);
    assert_eq!(t.points(), &vec![10, 11, 12]);
    assert_eq!(
        t.sources(),
        &vec![SampleSource::NotSampled, SampleSource::Light, SampleSource::Cosine]
    );
    assert_eq!(t.termination(), Termination::Escaped);
    assert_eq!(t.channel(), Channel::Neutral);
}

#[test]
fn a_split_gives_one_unsampled_path_per_refracted_channel() {
    let mut a: ActivePath<u32, u8> = ActivePath::primary(0);
    a.land(5);
    let parts = a.split(Some(1), None, Some(3));
    assert_eq!(parts.len(), 2);
    assert_eq!(parts[0].channel(), Channel::Red);
    assert_eq!(*parts[0].ray(), 1);
    assert_eq!(parts[1].channel(), Channel::Blue);
    assert_eq!(*parts[1].ray(), 3);
    for p in parts {
        let t = p.finish(Termination::Absorbed);
        assert_eq!(t.points(), &vec![5]);
        assert_eq!(t.sources(), &vec![SampleSource::NotSampled]);
    }
}

#[test]
fn encoded_paths_stop_at_the_first_vertex_that_cannot_be_projected() {
    let mut a: ActivePath<u32, ()> = ActivePath::primary(());
    a.land(1);
    let a = a.follow((), BouncePlan::PdfSample, false);
    let mut a = a;
    a.land(2);
    let a = a.follow((), BouncePlan::MaterialScatter, false);
    let mut a = a;
    a.land(3);
    let t = a.finish(Termination::Emitted);
    let proj = vec![vec![Some((1.5f64, 2.5f64)), Some((3.0, 4.0)), None]];
    let out = encode_paths(&vec![t], (7.0, 8.0), &proj);
    assert_eq!(
        out,
        vec![
            WireValue::Count(1),
            WireValue::Tag(2),
            WireValue::Tag(-1),
            WireValue::Count(3),
            WireValue::Coord(7.0),
            WireValue::Coord(8.0),
            WireValue::Coord(1.5),
            WireValue::Coord(2.5),
            WireValue::Coord(3.0),
            WireValue::Coord(4.0),
            WireValue::Tag(-1),
            WireValue::Tag(-1),
            WireValue::Tag(0),
        ]
    );
}

#[test]
fn encoded_paths_of_an_empty_trace_hold_only_the_count() {
    let paths: Vec<raytracer::trace::TracedPath<u8>> = Vec::new();
    let proj: Vec<Vec<Option<(f64, f64)>>> = Vec::new();
    assert_eq!(encode_paths(&paths, (0.0, 0.0), &proj), vec![WireValue::Count(0)]);
}

#[test]
fn direction_tips_skip_unprojectable_samples() {
    let tips = vec![Some((1.0f64, 2.0f64)), None, Some((3.0, 4.0))];
    let out = encode_direction_tips((0.5, 0.25), &tips);
    assert_eq!(
        out,
        vec![
            WireValue::Coord(0.5),
            WireValue::Coord(0.25),
            WireValue::Count(2),
            WireValue::Coord(1.0),
            WireValue::Coord(2.0),
            WireValue::Coord(3.0),
            WireValue::Coord(4.0),
        ]
    );
    assert!(out.len() == 3 + 2 * 2);
}

#[test]
fn direction_sampler_falls_back_to_cosine_without_lights() {
    assert_eq!(direction_sampler(0, true), DirectionSampler::UniformHemisphere);
    assert_eq!(direction_sampler(1, true), DirectionSampler::Cosine);
    assert_eq!(direction_sampler(2, true), DirectionSampler::Lights);
    assert_eq!(direction_sampler(2, false), DirectionSampler::Cosine);
    assert_eq!(direction_sampler(9, true), DirectionSampler::Cosine);
}

#[test]
fn naive_sampling_never_tags_a_vertex_as_importance_sampled() {
    for channel in [Channel::Neutral, Channel::Red, Channel::Green, Channel::Blue] {
        for dispersive in [false, true] {
            for specular in [false, true] {
                let plan = plan_bounce(channel, dispersive, specular, SamplingStrategy::Naive);
                assert_ne!(plan, BouncePlan::PdfSample);
                for toward_light in [false, true] {
                    let mut a: ActivePath<u8, u8> = ActivePath::primary(0);
                    a.land(1);
                    let mut a = a.follow(1, plan, toward_light);
                    a.land(2);
                    let t = a.finish(Termination::Absorbed);
                    assert!(t.sources().iter().all(|s| *s == SampleSource::NotSampled));
                }
            }
        }
    }
}
