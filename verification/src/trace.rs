use vstd::prelude::*;
use crate::scene::SamplingStrategy;

verus! {

/// How a traced path ended: it left the scene, was absorbed (or ran out of
/// bounces), or reached a light.
#[derive(Debug, Clone, Copy, PartialEq, Eq, Structural)]
pub enum Termination {
    Escaped,
    Absorbed,
    Emitted,
}

pub open spec fn spec_termination_code(t: Termination) -> i32 {
    match t {
        Termination::Escaped => 0,
        Termination::Absorbed => 1,
        Termination::Emitted => 2,
    }
}

impl Termination {
    /// Wire code: 0 escaped, 1 absorbed, 2 emitted.
    pub fn code(&self) -> (c: i32)
        ensures
            c == spec_termination_code(*self),
            *self == Termination::Escaped ==> c == 0,
            *self == Termination::Absorbed ==> c == 1,
            *self == Termination::Emitted ==> c == 2,
    {
        match self {
            Termination::Escaped => 0,
            Termination::Absorbed => 1,
            Termination::Emitted => 2,
        }
    }
}

/// The colour channel a path follows after dispersion split it, if any.
#[derive(Debug, Clone, Copy, PartialEq, Eq, Structural)]
pub enum Channel {
    Neutral,
    Red,
    Green,
    Blue,
}

pub open spec fn spec_channel_tag(c: Channel) -> i32 {
    match c {
        Channel::Neutral => -1i32,
        Channel::Red => 0,
        Channel::Green => 1,
        Channel::Blue => 2,
    }
}

impl Channel {
    /// Wire tag: -1 neutral, 0 red, 1 green, 2 blue; also the channel index
    /// handed to a dispersive material.
    pub fn tag(&self) -> (t: i32)
        ensures
            t == spec_channel_tag(*self),
            *self == Channel::Neutral ==> t == -1,
            *self == Channel::Red ==> t == 0,
            *self == Channel::Green ==> t == 1,
            *self == Channel::Blue ==> t == 2,
    {
        match self {
            Channel::Neutral => -1i32,
            Channel::Red => 0,
            Channel::Green => 1,
            Channel::Blue => 2,
        }
    }
}

/// What chose the direction of the ray that arrived at a vertex.
#[derive(Debug, Clone, Copy, PartialEq, Eq, Structural)]
pub enum SampleSource {
    /// Not importance sampled: the first ray, a specular or dispersive
    /// bounce, or the material's own scatter.
    NotSampled,
    /// Cosine-weighted sampling around the normal.
    Cosine,
    /// Sampling aimed at a light.
    Light,
}

pub open spec fn spec_source_tag(s: SampleSource) -> i32 {
    match s {
        SampleSource::NotSampled => -1i32,
        SampleSource::Cosine => 0,
        SampleSource::Light => 1,
    }
}

impl SampleSource {
    /// Wire tag: -1 not sampled, 0 cosine, 1 light.
    pub fn tag(&self) -> (t: i32)
        ensures
            t == spec_source_tag(*self),
            *self == SampleSource::NotSampled ==> t == -1,
            *self == SampleSource::Cosine ==> t == 0,
            *self == SampleSource::Light ==> t == 1,
    {
        match self {
            SampleSource::NotSampled => -1i32,
            SampleSource::Cosine => 0,
            SampleSource::Light => 1,
        }
    }
}

/// The wire codes: a path that escaped is 0, absorbed 1, emitted 2; a neutral
/// path is tagged -1 and the red, green and blue channels 0, 1 and 2; a vertex
/// not importance sampled is tagged -1, a cosine-sampled one 0 and one aimed
/// at a light 1. Distinct terminations, channels and sources get distinct
/// codes, so the front end can tell every one apart.
pub proof fn lemma_wire_codes()
    ensures
        spec_termination_code(Termination::Escaped) == 0,
        spec_termination_code(Termination::Absorbed) == 1,
        spec_termination_code(Termination::Emitted) == 2,
        spec_channel_tag(Channel::Neutral) == -1,
        spec_channel_tag(Channel::Red) == 0,
        spec_channel_tag(Channel::Green) == 1,
        spec_channel_tag(Channel::Blue) == 2,
        spec_source_tag(SampleSource::NotSampled) == -1,
        spec_source_tag(SampleSource::Cosine) == 0,
        spec_source_tag(SampleSource::Light) == 1,
        forall|a: Termination, b: Termination|
            #[trigger] spec_termination_code(a) == #[trigger] spec_termination_code(b) ==> a == b,
        forall|a: Channel, b: Channel| #[trigger] spec_channel_tag(a) == #[trigger] spec_channel_tag(b) ==> a == b,
        forall|a: SampleSource, b: SampleSource|
            #[trigger] spec_source_tag(a) == #[trigger] spec_source_tag(b) ==> a == b,
{
}

/// What a path does at a non-emissive surface it hit.
#[derive(Debug, Clone, Copy, PartialEq, Eq, Structural)]
pub enum BouncePlan {
    /// Split into one path per colour channel the material disperses.
    Split,
    /// Keep following this channel through the material's dispersion.
    FollowChannel(Channel),
    /// Pick the new direction by the strategy's importance sampling.
    PdfSample,
    /// Use the material's own scatter.
    MaterialScatter,
}

pub open spec fn spec_plan_bounce(
    channel: Channel,
    dispersive: bool,
    specular: bool,
    strategy: SamplingStrategy,
) -> BouncePlan {
    if channel == Channel::Neutral && dispersive {
        BouncePlan::Split
    } else if channel != Channel::Neutral {
        BouncePlan::FollowChannel(channel)
    } else if strategy != SamplingStrategy::Naive && !specular {
        BouncePlan::PdfSample
    } else {
        BouncePlan::MaterialScatter
    }
}

/// Decides how a path on `channel` continues from a surface, given whether
/// the surface's material disperses light and whether it is specular.
pub fn plan_bounce(channel: Channel, dispersive: bool, specular: bool, strategy: SamplingStrategy) -> (p:
    BouncePlan)
    ensures
        p == spec_plan_bounce(channel, dispersive, specular, strategy),
{
    if channel == Channel::Neutral && dispersive {
        BouncePlan::Split
    } else if channel != Channel::Neutral {
        BouncePlan::FollowChannel(channel)
    } else if strategy != SamplingStrategy::Naive && !specular {
        BouncePlan::PdfSample
    } else {
        BouncePlan::MaterialScatter
    }
}

/// Whether an importance-sampled bounce may be aimed at a light: only under
/// the mixture strategy and only when the scene has lights.
pub fn may_sample_lights(strategy: SamplingStrategy, has_lights: bool) -> (b: bool)
    ensures
        b == (strategy == SamplingStrategy::Mixture && has_lights),
{
    strategy == SamplingStrategy::Mixture && has_lights
}

pub open spec fn spec_bounce_source(plan: BouncePlan, toward_light: bool) -> SampleSource {
    match plan {
        BouncePlan::PdfSample => if toward_light {
            SampleSource::Light
        } else {
            SampleSource::Cosine
        },
        _ => SampleSource::NotSampled,
    }
}

/// Under naive sampling no bounce is ever importance sampled, so every
/// vertex of a traced path is tagged as not sampled.
pub proof fn lemma_naive_never_samples(channel: Channel, dispersive: bool, specular: bool, toward_light: bool)
    ensures
        spec_bounce_source(
            spec_plan_bounce(channel, dispersive, specular, SamplingStrategy::Naive),
            toward_light,
        ) == SampleSource::NotSampled,
{
}

/// Whether a vertex may carry source tag `s` under `strategy`: cosine
/// sampling needs a strategy other than naive, and aiming at a light needs the
/// mixture strategy and a scene with lights.
pub open spec fn tag_allowed(s: SampleSource, strategy: SamplingStrategy, has_lights: bool) -> bool {
    match s {
        SampleSource::NotSampled => true,
        SampleSource::Cosine => strategy != SamplingStrategy::Naive,
        SampleSource::Light => strategy == SamplingStrategy::Mixture && has_lights,
    }
}

/// Every tag of `sources` may occur under `strategy`.
pub open spec fn tags_allowed(sources: Seq<SampleSource>, strategy: SamplingStrategy, has_lights: bool) -> bool {
    forall|j: int| 0 <= j < sources.len() ==> tag_allowed(#[trigger] sources[j], strategy, has_lights)
}

/// A bounce tags the ray it sends with a tag its strategy allows, as long as
/// it aims at a light only where `may_sample_lights` permits; a specular
/// bounce, and any bounce of a path on a colour channel, is not sampled.
pub proof fn lemma_bounce_source_allowed(
    channel: Channel,
    dispersive: bool,
    specular: bool,
    strategy: SamplingStrategy,
    has_lights: bool,
    toward_light: bool,
)
    requires
        toward_light ==> strategy == SamplingStrategy::Mixture && has_lights,
    ensures
        tag_allowed(
            spec_bounce_source(spec_plan_bounce(channel, dispersive, specular, strategy), toward_light),
            strategy,
            has_lights,
        ),
        specular || channel != Channel::Neutral ==> spec_bounce_source(
            spec_plan_bounce(channel, dispersive, specular, strategy),
            toward_light,
        ) == SampleSource::NotSampled,
{
}

/// Specular surfaces, and every surface under naive sampling, keep the
/// material's own scatter: only diffuse surfaces opt into importance
/// sampling, and only when a sampling strategy asks for it.
pub proof fn lemma_only_diffuse_surfaces_opt_in(dispersive: bool, specular: bool, strategy: SamplingStrategy)
    requires
        !dispersive,
        specular || strategy == SamplingStrategy::Naive,
    ensures
        spec_plan_bounce(Channel::Neutral, dispersive, specular, strategy) == BouncePlan::MaterialScatter,
{
}

/// A path on a colour channel never splits again, which caps the paths
/// coming from one primary ray at three.
pub proof fn lemma_channel_paths_never_split(
    channel: Channel,
    dispersive: bool,
    specular: bool,
    strategy: SamplingStrategy,
)
    requires
        channel != Channel::Neutral,
    ensures
        spec_plan_bounce(channel, dispersive, specular, strategy) == BouncePlan::FollowChannel(channel),
{
}

/// Which distribution the direction-sampling visualisation draws from.
#[derive(Debug, Clone, Copy, PartialEq, Eq, Structural)]
pub enum DirectionSampler {
    /// Uniform over the hemisphere around the normal.
    UniformHemisphere,
    /// Cosine-weighted around the normal.
    Cosine,
    /// Toward the scene's lights.
    Lights,
}

pub open spec fn spec_direction_sampler(mode: u32, has_lights: bool) -> DirectionSampler {
    if mode == 0 {
        DirectionSampler::UniformHemisphere
    } else if mode == 2 && has_lights {
        DirectionSampler::Lights
    } else {
        DirectionSampler::Cosine
    }
}

/// Mode 0 always draws from the uniform hemisphere and mode 1 always
/// cosine-weighted, whether or not the scene has lights; mode 2 aims at the
/// lights when there are any and falls back to cosine otherwise; every other
/// mode is cosine-weighted.
pub proof fn lemma_direction_sampler_modes(mode: u32, has_lights: bool)
    ensures
        spec_direction_sampler(0, has_lights) == DirectionSampler::UniformHemisphere,
        spec_direction_sampler(1, has_lights) == DirectionSampler::Cosine,
        spec_direction_sampler(2, true) == DirectionSampler::Lights,
        spec_direction_sampler(2, false) == DirectionSampler::Cosine,
        mode > 2 ==> spec_direction_sampler(mode, has_lights) == DirectionSampler::Cosine,
        spec_direction_sampler(mode, has_lights) == DirectionSampler::Lights <==> (mode == 2 && has_lights),
{
}

/// Decodes the visualisation's mode: 0 uniform hemisphere, 2 toward the
/// lights when there are any, and cosine-weighted otherwise. Light sampling
/// is never chosen for a scene without lights.
pub fn direction_sampler(mode: u32, has_lights: bool) -> (d: DirectionSampler)
    ensures
        d == spec_direction_sampler(mode, has_lights),
        d == DirectionSampler::Lights ==> has_lights,
        mode == 0 ==> d == DirectionSampler::UniformHemisphere,
        mode == 1 ==> d == DirectionSampler::Cosine,
        mode == 2 && has_lights ==> d == DirectionSampler::Lights,
        mode == 2 && !has_lights ==> d == DirectionSampler::Cosine,
        mode > 2 ==> d == DirectionSampler::Cosine,
{
    if mode == 0 {
        DirectionSampler::UniformHemisphere
    } else if mode == 2 && has_lights {
        DirectionSampler::Lights
    } else {
        DirectionSampler::Cosine
    }
}

/// Rays traced per click: six lens samples when depth of field is on, one otherwise.
pub fn bundle_size(defocus_enabled: bool) -> (n: usize)
    ensures
        n == (if defocus_enabled { 6usize } else { 1usize }),
{
    if defocus_enabled {
        6
    } else {
        1
    }
}

/// A path still bouncing: the ray in flight, its channel, the surface points
/// reached so far with the source tag of the ray that reached each, and the
/// source tag of the ray in flight.
pub struct ActivePath<P, R> {
    ray: R,
    channel: Channel,
    points: Vec<P>,
    sources: Vec<SampleSource>,
    ray_source: SampleSource,
}

/// A finished path: its vertices, the source tag of each vertex, its channel
/// and how it ended.
pub struct TracedPath<P> {
    points: Vec<P>,
    sources: Vec<SampleSource>,
    channel: Channel,
    termination: Termination,
}

impl<P, R> ActivePath<P, R> {
    /// Each point carries exactly one source tag.
    pub open spec fn wf(self) -> bool {
        self.spec_points().len() == self.spec_sources().len()
    }

    pub closed spec fn spec_ray(self) -> R {
        self.ray
    }

    pub closed spec fn spec_channel(self) -> Channel {
        self.channel
    }

    pub closed spec fn spec_points(self) -> Seq<P> {
        self.points@
    }

    pub closed spec fn spec_sources(self) -> Seq<SampleSource> {
        self.sources@
    }

    pub closed spec fn spec_ray_source(self) -> SampleSource {
        self.ray_source
    }

    /// The primary ray through a pixel: neutral, no points yet, not sampled.
    pub fn primary(ray: R) -> (a: Self)
        ensures
            a.wf(),
            a.spec_ray() == ray,
            a.spec_channel() == Channel::Neutral,
            a.spec_points().len() == 0,
            a.spec_sources().len() == 0,
            a.spec_ray_source() == SampleSource::NotSampled,
    {
        ActivePath {
            ray,
            channel: Channel::Neutral,
            points: Vec::new(),
            sources: Vec::new(),
            ray_source: SampleSource::NotSampled,
        }
    }

    pub fn ray(&self) -> (r: &R)
        ensures
            *r == self.spec_ray(),
    {
        &self.ray
    }

    pub fn channel(&self) -> (c: Channel)
        ensures
            c == self.spec_channel(),
    {
        self.channel
    }

    /// Records that the ray in flight reached `point`.
    pub fn land(&mut self, point: P)
        requires
            old(self).wf(),
        ensures
            final(self).wf(),
            final(self).spec_points() == old(self).spec_points().push(point),
            final(self).spec_sources() == old(self).spec_sources().push(old(self).spec_ray_source()),
            final(self).spec_channel() == old(self).spec_channel(),
            final(self).spec_ray() == old(self).spec_ray(),
            final(self).spec_ray_source() == old(self).spec_ray_source(),
    {
        self.points.push(point);
        self.sources.push(self.ray_source);
    }

    /// Ends the path with the given termination.
    pub fn finish(self, termination: Termination) -> (t: TracedPath<P>)
        requires
            self.wf(),
        ensures
            t.wf(),
            t.spec_points() == self.spec_points(),
            t.spec_sources() == self.spec_sources(),
            t.spec_channel() == self.spec_channel(),
            t.spec_termination() == termination,
    {
        TracedPath { points: self.points, sources: self.sources, channel: self.channel, termination }
    }

    /// Ends the path at `escape_point` after its ray missed every object.
    pub fn escape(self, escape_point: P) -> (t: TracedPath<P>)
        requires
            self.wf(),
        ensures
            t.wf(),
            t.spec_points() == self.spec_points().push(escape_point),
            t.spec_sources() == self.spec_sources().push(self.spec_ray_source()),
            t.spec_channel() == self.spec_channel(),
            t.spec_termination() == Termination::Escaped,
    {
        let mut s = self;
        s.land(escape_point);
        s.finish(Termination::Escaped)
    }

    /// Continues the path with the next ray chosen by `plan`; the new ray's
    /// source tag follows from the plan and whether it was aimed at a light.
    pub fn follow(self, ray: R, plan: BouncePlan, toward_light: bool) -> (a: Self)
        requires
            self.wf(),
        ensures
            a.wf(),
            a.spec_ray() == ray,
            a.spec_channel() == self.spec_channel(),
            a.spec_points() == self.spec_points(),
            a.spec_sources() == self.spec_sources(),
            a.spec_ray_source() == spec_bounce_source(plan, toward_light),
    {
        let source = match plan {
            BouncePlan::PdfSample => if toward_light {
                SampleSource::Light
            } else {
                SampleSource::Cosine
            },
            _ => SampleSource::NotSampled,
        };
        ActivePath {
            ray,
            channel: self.channel,
            points: self.points,
            sources: self.sources,
            ray_source: source,
        }
    }
}

/// A copy of the elements of `v`.
fn copy_vec<T: Copy>(v: &Vec<T>) -> (c: Vec<T>)
    ensures
        c@ == v@,
{
    let mut c: Vec<T> = Vec::new();
    let n = v.len();
    let mut i: usize = 0;
    while i < n
        invariant
            n == v@.len(),
            0 <= i <= n,
            c@ =~= v@.take(i as int),
        decreases n - i,
    {
        c.push(v[i]);
        i = i + 1;
    }
    assert(v@.take(n as int) =~= v@);
    c
}

/// The channels that a split produces, in order, given which channels the
/// material refracts.
pub open spec fn split_channels(red: bool, green: bool, blue: bool) -> Seq<Channel> {
    (if red { seq![Channel::Red] } else { Seq::empty() }) + (if green {
        seq![Channel::Green]
    } else {
        Seq::empty()
    }) + (if blue { seq![Channel::Blue] } else { Seq::empty() })
}

/// The present values among `o`: one element or none.
pub open spec fn present<T>(o: Option<T>) -> Seq<T> {
    match o {
        Some(x) => seq![x],
        None => Seq::empty(),
    }
}

/// The rays a split continues with, in channel order.
pub open spec fn split_rays<R>(red: Option<R>, green: Option<R>, blue: Option<R>) -> Seq<R> {
    present(red) + present(green) + present(blue)
}

impl<P: Copy, R> ActivePath<P, R> {
    fn branch(&self, channel: Channel, ray: R) -> (a: Self)
        requires
            self.wf(),
        ensures
            a.wf(),
            a.spec_ray() == ray,
            a.spec_channel() == channel,
            a.spec_points() == self.spec_points(),
            a.spec_sources() == self.spec_sources(),
            a.spec_ray_source() == SampleSource::NotSampled,
    {
        ActivePath {
            ray,
            channel,
            points: copy_vec(&self.points),
            sources: copy_vec(&self.sources),
            ray_source: SampleSource::NotSampled,
        }
    }

    /// Splits a neutral path at a dispersive surface into one path per
    /// channel the material refracts (red, green, blue, in that order); each
    /// keeps the points reached so far and starts with an unsampled ray.
    pub fn split(self, red: Option<R>, green: Option<R>, blue: Option<R>) -> (v: Vec<Self>)
        requires
            self.wf(),
        ensures
            v@.len() <= 3,
            v@.len() == split_channels(red is Some, green is Some, blue is Some).len(),
            forall|k: int|
                0 <= k < v@.len() ==> {
                    &&& (#[trigger] v@[k]).wf()
                    &&& v@[k].spec_channel() == split_channels(
                        red is Some,
                        green is Some,
                        blue is Some,
                    )[k]
                    &&& v@[k].spec_channel() != Channel::Neutral
                    &&& v@[k].spec_points() == self.spec_points()
                    &&& v@[k].spec_sources() == self.spec_sources()
                    &&& v@[k].spec_ray_source() == SampleSource::NotSampled
                    &&& v@[k].spec_ray() == split_rays(red, green, blue)[k]
                },
    {
        let ghost rays = split_rays(red, green, blue);
        let ghost chans = split_channels(red is Some, green is Some, blue is Some);
        let mut v: Vec<Self> = Vec::new();
        let ghost pts = self.spec_points();
        let ghost srcs = self.spec_sources();
        let ghost red_part: Seq<Channel> = if red is Some { seq![Channel::Red] } else { Seq::empty() };
        let ghost green_part: Seq<Channel> = if green is Some { seq![Channel::Green] } else { Seq::empty() };
        match red {
            Some(r) => {
                let a = self.branch(Channel::Red, r);
                v.push(a);
            },
            None => {},
        }
        assert(v@.len() == red_part.len());
        assert(forall|k: int| 0 <= k < v@.len() ==> (#[trigger] v@[k]).spec_channel() == red_part[k]);
        assert(forall|k: int| 0 <= k < v@.len() ==> (#[trigger] v@[k]).spec_ray() == present(red)[k]);
        match green {
            Some(r) => {
                let a = self.branch(Channel::Green, r);
                v.push(a);
            },
            None => {},
        }
        assert(v@.len() == (red_part + green_part).len());
        assert(forall|k: int|
            0 <= k < v@.len() ==> (#[trigger] v@[k]).spec_channel() == (red_part + green_part)[k]);
        assert(forall|k: int|
            0 <= k < v@.len() ==> (#[trigger] v@[k]).spec_ray() == (present(red) + present(green))[k]);
        match blue {
            Some(r) => {
                let a = self.branch(Channel::Blue, r);
                v.push(a);
            },
            None => {},
        }
        assert(v@.len() == chans.len());
        assert(forall|k: int| 0 <= k < v@.len() ==> (#[trigger] v@[k]).spec_channel() == chans[k]);
        assert(forall|k: int| 0 <= k < v@.len() ==> (#[trigger] v@[k]).spec_ray() == rays[k]);
        v
    }
}

impl<P> TracedPath<P> {
    /// Each point carries exactly one source tag.
    pub open spec fn wf(self) -> bool {
        self.spec_points().len() == self.spec_sources().len()
    }

    pub closed spec fn spec_points(self) -> Seq<P> {
        self.points@
    }

    pub closed spec fn spec_sources(self) -> Seq<SampleSource> {
        self.sources@
    }

    pub closed spec fn spec_channel(self) -> Channel {
        self.channel
    }

    pub closed spec fn spec_termination(self) -> Termination {
        self.termination
    }

    pub fn points(&self) -> (p: &Vec<P>)
        ensures
            p@ == self.spec_points(),
    {
        &self.points
    }

    pub fn sources(&self) -> (s: &Vec<SampleSource>)
        ensures
            s@ == self.spec_sources(),
            self.wf() ==> s@.len() == self.spec_points().len(),
    {
        &self.sources
    }

    pub fn channel(&self) -> (c: Channel)
        ensures
            c == self.spec_channel(),
    {
        self.channel
    }

    pub fn termination(&self) -> (t: Termination)
        ensures
            t == self.spec_termination(),
    {
        self.termination
    }
}


/// One number of the flat buffer that the front end reads: a count, a small
/// integer tag, or a pixel-space coordinate.
#[derive(Debug, PartialEq)]
pub enum WireValue<C> {
    Count(usize),
    Tag(i32),
    Coord(C),
}

/// The coordinate `axis` (0 for x, 1 for y) of a projected point.
pub open spec fn coord_of<C>(o: Option<(C, C)>, axis: int) -> C {
    match o {
        Some(p) => if axis == 0 {
            p.0
        } else {
            p.1
        },
        None => arbitrary(),
    }
}

/// How many of the projections, counted from position `i`, succeed before the
/// first one that fails.
pub open spec fn visible_from<C>(proj: Seq<Option<(C, C)>>, i: int) -> nat
    decreases proj.len() - i,
{
    if i < 0 || i >= proj.len() || proj[i] is None {
        0
    } else {
        1 + visible_from(proj, i + 1)
    }
}

/// Length of the leading run of successful projections: a path is drawn up
/// to its first vertex that cannot be projected onto the screen.
pub open spec fn visible_count<C>(proj: Seq<Option<(C, C)>>) -> nat {
    visible_from(proj, 0)
}

/// The x, y pairs of the first `n` projected vertices.
pub open spec fn coord_entries<C>(proj: Seq<Option<(C, C)>>, n: nat) -> Seq<WireValue<C>> {
    Seq::new(2 * n, |k: int| WireValue::Coord(coord_of(proj[k / 2], k % 2)))
}

/// The source tags of the first `n` vertices.
pub open spec fn source_entries<C>(sources: Seq<SampleSource>, n: nat) -> Seq<WireValue<C>> {
    Seq::new(n, |k: int| WireValue::Tag(spec_source_tag(sources[k])))
}

/// The block of one path: termination code, channel tag, vertex count, then
/// the clicked pixel and each drawn vertex as x, y pairs, then one source tag
/// per drawn vertex (the clicked pixel's tag is "not sampled").
pub open spec fn path_block<P, C>(
    path: TracedPath<P>,
    pixel: (C, C),
    proj: Seq<Option<(C, C)>>,
) -> Seq<WireValue<C>> {
    let n = visible_count(proj);
    seq![
        WireValue::Tag(spec_termination_code(path.spec_termination())),
        WireValue::Tag(spec_channel_tag(path.spec_channel())),
        WireValue::Count((n + 1) as usize),
        WireValue::Coord(pixel.0),
        WireValue::Coord(pixel.1),
    ] + coord_entries(proj, n) + seq![WireValue::Tag(-1i32)] + source_entries(path.spec_sources(), n)
}

/// The blocks of all paths, in order.
pub open spec fn path_blocks<P, C>(
    paths: Seq<TracedPath<P>>,
    pixel: (C, C),
    projs: Seq<Vec<Option<(C, C)>>>,
) -> Seq<WireValue<C>>
    decreases paths.len(),
{
    if paths.len() == 0 || projs.len() == 0 {
        Seq::empty()
    } else {
        path_blocks(paths.drop_last(), pixel, projs.drop_last()) + path_block(
            paths.last(),
            pixel,
            projs.last()@,
        )
    }
}

/// The length of the leading run of successful projections, and that run is
/// all successes.
fn count_visible<C: Copy>(proj: &Vec<Option<(C, C)>>) -> (n: usize)
    ensures
        n == visible_count(proj@),
        n <= proj@.len(),
        forall|k: int| 0 <= k < n ==> (#[trigger] proj@[k]) is Some,
{
    let len = proj.len();
    let mut i: usize = 0;
    while i < len && proj[i].is_some()
        invariant
            len == proj@.len(),
            0 <= i <= len,
            visible_count(proj@) == i + visible_from(proj@, i as int),
            forall|k: int| 0 <= k < i ==> (#[trigger] proj@[k]) is Some,
        decreases len - i,
    {
        i = i + 1;
    }
    i
}

/// Appends the block of one traced path to `out`.
fn push_path_block<P, C: Copy>(
    out: &mut Vec<WireValue<C>>,
    path: &TracedPath<P>,
    pixel: (C, C),
    proj: &Vec<Option<(C, C)>>,
)
    requires
        path.wf(),
        proj@.len() == path.spec_points().len(),
        proj@.len() < usize::MAX,
    ensures
        final(out)@ == old(out)@ + path_block(*path, pixel, proj@),
{
    let n = count_visible(proj);
    let ghost start = out@;
    out.push(WireValue::Tag(path.termination().code()));
    out.push(WireValue::Tag(path.channel().tag()));
    out.push(WireValue::Count(n + 1));
    out.push(WireValue::Coord(pixel.0));
    out.push(WireValue::Coord(pixel.1));
    let ghost head = out@;
    let mut k: usize = 0;
    while k < n
        invariant
            n == visible_count(proj@),
            n <= proj@.len(),
            forall|q: int| 0 <= q < n ==> (#[trigger] proj@[q]) is Some,
            0 <= k <= n,
            out@ =~= head + coord_entries(proj@, k as nat),
        decreases n - k,
    {
        let p = proj[k].unwrap();
        out.push(WireValue::Coord(p.0));
        out.push(WireValue::Coord(p.1));
        proof {
            let next = coord_entries(proj@, (k + 1) as nat);
            assert(next =~= coord_entries(proj@, k as nat) + seq![
                WireValue::Coord(p.0),
                WireValue::Coord(p.1),
            ]) by {
                assert forall|q: int| 0 <= q < 2 * (k + 1) implies #[trigger] next[q] == (
                coord_entries(proj@, k as nat) + seq![WireValue::Coord(p.0), WireValue::Coord(p.1)])[q] by {
                    if q == 2 * k {
                        assert(q / 2 == k && q % 2 == 0);
                    } else if q == 2 * k + 1 {
                        assert(q / 2 == k && q % 2 == 1);
                    }
                }
            }
        }
        k = k + 1;
    }
    out.push(WireValue::Tag(-1i32));
    let ghost mid = out@;
    let mut k: usize = 0;
    while k < n
        invariant
            n <= path.spec_sources().len(),
            0 <= k <= n,
            out@ =~= mid + source_entries(path.spec_sources(), k as nat),
        decreases n - k,
    {
        out.push(WireValue::Tag(path.sources()[k].tag()));
        k = k + 1;
    }
}

/// Encodes traced paths into the flat buffer the front end reads: the number
/// of paths, then one block per path (see `path_block`). `projections[k][v]`
/// is where vertex `v` of path `k` lands on screen, if it can be projected.
pub fn encode_paths<P, C: Copy>(
    paths: &Vec<TracedPath<P>>,
    pixel: (C, C),
    projections: &Vec<Vec<Option<(C, C)>>>,
) -> (out: Vec<WireValue<C>>)
    requires
        projections@.len() == paths@.len(),
        forall|k: int| 0 <= k < paths@.len() ==> (#[trigger] paths@[k]).wf(),
        forall|k: int|
            0 <= k < paths@.len() ==> (#[trigger] projections@[k])@.len()
                == paths@[k].spec_points().len(),
        forall|k: int| 0 <= k < paths@.len() ==> (#[trigger] projections@[k])@.len() < usize::MAX,
    ensures
        out@ == seq![WireValue::Count(paths@.len() as usize)] + path_blocks(paths@, pixel, projections@),
{
    let mut out: Vec<WireValue<C>> = Vec::new();
    out.push(WireValue::Count(paths.len()));
    let n = paths.len();
    let mut i: usize = 0;
    while i < n
        invariant
            n == paths@.len(),
            projections@.len() == n,
            forall|k: int| 0 <= k < paths@.len() ==> (#[trigger] paths@[k]).wf(),
            forall|k: int|
                0 <= k < paths@.len() ==> (#[trigger] projections@[k])@.len()
                    == paths@[k].spec_points().len(),
            forall|k: int| 0 <= k < paths@.len() ==> (#[trigger] projections@[k])@.len() < usize::MAX,
            0 <= i <= n,
            out@ =~= seq![WireValue::Count(n)] + path_blocks(
                paths@.take(i as int),
                pixel,
                projections@.take(i as int),
            ),
        decreases n - i,
    {
        push_path_block(&mut out, &paths[i], pixel, &projections[i]);
        proof {
            assert(paths@.take(i + 1).drop_last() =~= paths@.take(i as int));
            assert(projections@.take(i + 1).drop_last() =~= projections@.take(i as int));
        }
        i = i + 1;
    }
    proof {
        assert(paths@.take(n as int) =~= paths@);
        assert(projections@.take(n as int) =~= projections@);
    }
    out
}

/// Every path block carries as many x, y pairs as source tags, one of each
/// for the clicked pixel and for every drawn vertex.
pub proof fn lemma_block_coords_match_tags<P, C>(
    path: TracedPath<P>,
    pixel: (C, C),
    proj: Seq<Option<(C, C)>>,
)
    requires
        path.wf(),
        proj.len() == path.spec_points().len(),
    ensures
        ({
            let n = visible_count(proj);
            &&& n <= proj.len()
            &&& coord_entries(proj, n).len() + 2 == 2 * (source_entries::<C>(path.spec_sources(), n).len()
                + 1)
            &&& path_block(path, pixel, proj).len() == 3 + 3 * (n + 1)
        }),
{
    lemma_visible_bounded(proj, 0);
}

proof fn lemma_visible_bounded<C>(proj: Seq<Option<(C, C)>>, i: int)
    requires
        0 <= i <= proj.len(),
    ensures
        visible_from(proj, i) <= proj.len() - i,
    decreases proj.len() - i,
{
    if i < proj.len() && proj[i] is Some {
        lemma_visible_bounded(proj, i + 1);
    }
}

/// The screen-space tips of sampled directions that could be projected, as
/// x, y pairs in sampling order.
pub open spec fn tip_entries<C>(tips: Seq<Option<(C, C)>>) -> Seq<WireValue<C>>
    decreases tips.len(),
{
    if tips.len() == 0 {
        Seq::empty()
    } else {
        let rest = tip_entries(tips.drop_last());
        match tips.last() {
            Some(p) => rest + seq![WireValue::Coord(p.0), WireValue::Coord(p.1)],
            None => rest,
        }
    }
}

/// How many sampled directions could be projected.
pub open spec fn projected_count<C>(tips: Seq<Option<(C, C)>>) -> nat
    decreases tips.len(),
{
    if tips.len() == 0 {
        0
    } else {
        projected_count(tips.drop_last()) + if tips.last() is Some {
            1nat
        } else {
            0nat
        }
    }
}

/// At most one tip per sampled direction is drawn, two numbers each.
pub proof fn lemma_tip_count<C>(tips: Seq<Option<(C, C)>>)
    ensures
        projected_count(tips) <= tips.len(),
        tip_entries(tips).len() == 2 * projected_count(tips),
    decreases tips.len(),
{
    if tips.len() > 0 {
        lemma_tip_count(tips.drop_last());
    }
}

/// Encodes a direction-sampling visualisation: the projected hit point, the
/// number of drawn tips, then the tips that could be projected, in order.
pub fn encode_direction_tips<C: Copy>(origin: (C, C), tips: &Vec<Option<(C, C)>>) -> (out: Vec<
    WireValue<C>,
>)
    ensures
        out@ == seq![
            WireValue::Coord(origin.0),
            WireValue::Coord(origin.1),
            WireValue::Count(projected_count(tips@) as usize),
        ] + tip_entries(tips@),
        projected_count(tips@) <= tips@.len(),
        out@.len() == 3 + 2 * projected_count(tips@),
{
    proof {
        lemma_tip_count(tips@);
    }
    let n = tips.len();
    let mut body: Vec<WireValue<C>> = Vec::new();
    let mut count: usize = 0;
    let mut i: usize = 0;
    while i < n
        invariant
            n == tips@.len(),
            0 <= i <= n,
            body@ =~= tip_entries(tips@.take(i as int)),
            count == projected_count(tips@.take(i as int)),
            count <= i,
        decreases n - i,
    {
        proof {
            assert(tips@.take(i + 1).drop_last() =~= tips@.take(i as int));
        }
        match tips[i] {
            Some(p) => {
                body.push(WireValue::Coord(p.0));
                body.push(WireValue::Coord(p.1));
                count = count + 1;
            },
            None => {},
        }
        i = i + 1;
    }
    proof {
        assert(tips@.take(n as int) =~= tips@);
    }
    let mut out: Vec<WireValue<C>> = Vec::new();
    out.push(WireValue::Coord(origin.0));
    out.push(WireValue::Coord(origin.1));
    out.push(WireValue::Count(count));
    out.append(&mut body);
    out
}

} // verus!
