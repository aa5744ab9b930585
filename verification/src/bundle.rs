use vstd::prelude::*;
use crate::scene::SamplingStrategy;
use crate::trace::{
    ActivePath, BouncePlan, Channel, SampleSource, Termination, TracedPath, lemma_bounce_source_allowed,
    may_sample_lights, plan_bounce, present, spec_bounce_source, spec_plan_bounce, split_channels, split_rays,
    tag_allowed, tags_allowed,
};

verus! {

/// The paths grown from one primary ray, traced depth by depth: the path
/// being handled now, the rest of this depth's paths, the paths that go on to
/// the next depth, and the finished paths; the depth being traced and the
/// last depth allowed; and the sampling strategy and whether the scene has
/// lights, which decide the tags a bounce may carry.
pub struct BundleTrace<P, R> {
    front: Option<ActivePath<P, R>>,
    current: Vec<ActivePath<P, R>>,
    next: Vec<ActivePath<P, R>>,
    finished: Vec<TracedPath<P>>,
    depth: u32,
    max_depth: u32,
    strategy: SamplingStrategy,
    has_lights: bool,
}

/// Whether any of the paths is still neutral (not yet split by colour).
pub open spec fn any_neutral<P, R>(paths: Seq<ActivePath<P, R>>) -> bool {
    exists|k: int| 0 <= k < paths.len() && (#[trigger] paths[k]).spec_channel() == Channel::Neutral
}

/// A path still bouncing is well formed, has reached at most `depth` points,
/// and carries only tags that the strategy allows, the ray in flight included.
pub open spec fn active_ok<P, R>(
    a: ActivePath<P, R>,
    depth: nat,
    strategy: SamplingStrategy,
    has_lights: bool,
) -> bool {
    &&& a.wf()
    &&& a.spec_points().len() <= depth
    &&& tags_allowed(a.spec_sources(), strategy, has_lights)
    &&& tag_allowed(a.spec_ray_source(), strategy, has_lights)
}

pub open spec fn all_active_ok<P, R>(
    paths: Seq<ActivePath<P, R>>,
    depth: nat,
    strategy: SamplingStrategy,
    has_lights: bool,
) -> bool {
    forall|k: int| 0 <= k < paths.len() ==> active_ok(#[trigger] paths[k], depth, strategy, has_lights)
}

/// A path handed out is well formed, has at most `bound` points, and carries
/// only tags that the strategy allows.
pub open spec fn path_ok<P>(t: TracedPath<P>, bound: nat, strategy: SamplingStrategy, has_lights: bool) -> bool {
    &&& t.wf()
    &&& t.spec_points().len() <= bound
    &&& tags_allowed(t.spec_sources(), strategy, has_lights)
}

/// Finished paths: handed-out paths that reached at least one point.
pub open spec fn all_finished_ok<P>(
    paths: Seq<TracedPath<P>>,
    depth: nat,
    strategy: SamplingStrategy,
    has_lights: bool,
) -> bool {
    forall|k: int|
        0 <= k < paths.len() ==> path_ok(#[trigger] paths[k], depth, strategy, has_lights) && 1
            <= paths[k].spec_points().len()
}

/// Every path of `paths` has reached exactly `n` points.
pub open spec fn all_points_len<P, R>(paths: Seq<ActivePath<P, R>>, n: nat) -> bool {
    forall|k: int| 0 <= k < paths.len() ==> (#[trigger] paths[k]).spec_points().len() == n
}

/// The paths that `finish` makes of paths still bouncing: absorbed, with
/// their points, tags and channel.
pub open spec fn absorbed_as<P, R>(t: TracedPath<P>, a: ActivePath<P, R>) -> bool {
    &&& t.wf()
    &&& t.spec_points() == a.spec_points()
    &&& t.spec_sources() == a.spec_sources()
    &&& t.spec_channel() == a.spec_channel()
    &&& t.spec_termination() == Termination::Absorbed
}

impl<P, R> BundleTrace<P, R> {
    /// Paths still bouncing: the one in hand, then the rest of this depth,
    /// then those waiting for the next depth.
    pub open spec fn pending(self) -> Seq<ActivePath<P, R>> {
        (match self.spec_front() {
            Some(a) => seq![a],
            None => Seq::empty(),
        }) + self.spec_current() + self.spec_next()
    }

    pub closed spec fn spec_finished(self) -> Seq<TracedPath<P>> {
        self.finished@
    }

    pub closed spec fn spec_front(self) -> Option<ActivePath<P, R>> {
        self.front
    }

    /// The rest of this depth's paths, after the one in hand.
    pub closed spec fn spec_current(self) -> Seq<ActivePath<P, R>> {
        self.current@
    }

    /// The paths waiting for the next depth.
    pub closed spec fn spec_next(self) -> Seq<ActivePath<P, R>> {
        self.next@
    }

    /// The depth being traced, counted from 1.
    pub closed spec fn spec_depth(self) -> nat {
        self.depth as nat
    }

    /// The last depth that may be traced.
    pub closed spec fn spec_max_depth(self) -> nat {
        self.max_depth as nat
    }

    pub closed spec fn spec_strategy(self) -> SamplingStrategy {
        self.strategy
    }

    pub closed spec fn spec_has_lights(self) -> bool {
        self.has_lights
    }

    /// All paths of the bundle so far, bouncing or finished.
    pub open spec fn total(self) -> nat {
        self.pending().len() + self.spec_finished().len()
    }

    /// The path in hand has not yet reached its point at this depth.
    pub open spec fn front_fresh(self) -> bool {
        &&& self.spec_front() is Some
        &&& self.spec_front()->0.spec_points().len() + 1 == self.spec_depth()
    }

    /// The path in hand has reached its point at this depth.
    pub open spec fn front_landed(self) -> bool {
        &&& self.spec_front() is Some
        &&& self.spec_front()->0.spec_points().len() == self.spec_depth()
    }

    /// The depth lies between 1 and the last depth allowed; there are at most
    /// three paths, and exactly one while the bundle is still neutral; every
    /// path is well formed and carries only tags the strategy allows; a path
    /// gains one point per depth: those of this depth still to be handled
    /// have one point fewer than the depth, those waiting for the next depth
    /// have as many points as the depth, and finished ones between one and
    /// the depth.
    pub open spec fn wf(self) -> bool {
        let d = self.spec_depth();
        let s = self.spec_strategy();
        let l = self.spec_has_lights();
        &&& 1 <= d <= self.spec_max_depth()
        &&& self.total() <= 3
        &&& any_neutral(self.pending()) ==> self.total() == 1
        &&& all_active_ok(self.pending(), d, s, l)
        &&& all_points_len(self.spec_current(), (d - 1) as nat)
        &&& all_points_len(self.spec_next(), d)
        &&& self.spec_front() is Some ==> self.front_fresh() || self.front_landed()
        &&& all_finished_ok(self.spec_finished(), d, s, l)
    }

    /// Starts tracing `primary` under `strategy`, in a scene with or without
    /// lights, allowing at most `max_depth` depths (at least one).
    pub fn new(primary: R, max_depth: u32, strategy: SamplingStrategy, has_lights: bool) -> (b: Self)
        ensures
            b.wf(),
            b.spec_front() is None,
            b.spec_next().len() == 0,
            b.spec_current().len() == 1,
            b.spec_current()[0].spec_ray() == primary,
            b.spec_current()[0].spec_channel() == Channel::Neutral,
            b.spec_current()[0].spec_points().len() == 0,
            b.spec_current()[0].spec_sources().len() == 0,
            b.spec_current()[0].spec_ray_source() == SampleSource::NotSampled,
            b.pending().len() == 1,
            b.spec_finished().len() == 0,
            b.spec_depth() == 1,
            b.spec_max_depth() == (if max_depth == 0 { 1 } else { max_depth as nat }),
            b.spec_strategy() == strategy,
            b.spec_has_lights() == has_lights,
    {
        let max_depth = if max_depth == 0 {
            1
        } else {
            max_depth
        };
        let p = ActivePath::primary(primary);
        let mut current: Vec<ActivePath<P, R>> = Vec::new();
        current.push(p);
        let b = BundleTrace {
            front: None,
            current,
            next: Vec::new(),
            finished: Vec::new(),
            depth: 1,
            max_depth,
            strategy,
            has_lights,
        };
        assert(b.pending() =~= seq![p]);
        assert(any_neutral(b.pending()) ==> b.total() == 1);
        b
    }

    /// Whether a bounce of this bundle may be aimed at a light.
    pub fn may_aim_at_light(&self) -> (b: bool)
        ensures
            b == (self.spec_strategy() == SamplingStrategy::Mixture && self.spec_has_lights()),
    {
        may_sample_lights(self.strategy, self.has_lights)
    }

    /// Picks up the next path to handle, starting the next depth when this
    /// one is done and the last depth has not been reached. `false` when
    /// tracing is over.
    pub fn take_next(&mut self) -> (more: bool)
        requires
            old(self).wf(),
        ensures
            final(self).wf(),
            final(self).pending() == old(self).pending(),
            final(self).spec_finished() == old(self).spec_finished(),
            final(self).spec_max_depth() == old(self).spec_max_depth(),
            final(self).spec_strategy() == old(self).spec_strategy(),
            final(self).spec_has_lights() == old(self).spec_has_lights(),
            more == final(self).spec_front() is Some,
            more == (old(self).spec_front() is Some || old(self).spec_current().len() > 0 || (
            old(self).spec_depth() < old(self).spec_max_depth() && old(self).spec_next().len() > 0)),
            old(self).spec_front() is Some ==> *final(self) == *old(self),
            old(self).spec_front() is None && old(self).spec_current().len() > 0 ==> {
                &&& final(self).spec_front() == Some(old(self).spec_current()[0])
                &&& final(self).spec_current() == old(self).spec_current().drop_first()
                &&& final(self).spec_next() == old(self).spec_next()
                &&& final(self).spec_depth() == old(self).spec_depth()
                &&& final(self).front_fresh()
            },
            old(self).spec_front() is None && old(self).spec_current().len() == 0 && more ==> {
                &&& final(self).spec_front() == Some(old(self).spec_next()[0])
                &&& final(self).spec_current() == old(self).spec_next().drop_first()
                &&& final(self).spec_next().len() == 0
                &&& final(self).spec_depth() == old(self).spec_depth() + 1
                &&& final(self).front_fresh()
            },
            !more ==> *final(self) == *old(self),
    {
        if self.front.is_some() {
            return true;
        }
        let ghost before = self.pending();
        if self.current.len() == 0 {
            if self.depth < self.max_depth && self.next.len() > 0 {
                let mut fresh: Vec<ActivePath<P, R>> = Vec::new();
                std::mem::swap(&mut fresh, &mut self.next);
                self.current = fresh;
                self.depth = self.depth + 1;
                assert(self.pending() =~= before);
                assert(all_active_ok(self.pending(), self.depth as nat, self.strategy, self.has_lights));
                assert(all_finished_ok(self.finished@, self.depth as nat, self.strategy, self.has_lights));
            } else {
                return false;
            }
        }
        let ghost cur = self.current@;
        let a = self.current.remove(0);
        self.front = Some(a);
        assert(a == cur[0]);
        assert(self.pending() =~= before);
        assert(all_points_len(self.current@, (self.depth - 1) as nat)) by {
            assert forall|k: int| 0 <= k < self.current@.len() implies (
            #[trigger] self.current@[k]).spec_points().len() == (self.depth - 1) as nat by {
                assert(self.current@[k] == cur[k + 1]);
            }
        }
        true
    }

    /// The ray of the path in hand.
    pub fn front_ray(&self) -> (r: &R)
        requires
            self.spec_front() is Some,
        ensures
            *r == self.spec_front()->0.spec_ray(),
    {
        self.front.as_ref().unwrap().ray()
    }

    /// The channel of the path in hand.
    pub fn front_channel(&self) -> (c: Channel)
        requires
            self.spec_front() is Some,
        ensures
            c == self.spec_front()->0.spec_channel(),
    {
        match &self.front {
            Some(a) => a.channel(),
            None => Channel::Neutral,
        }
    }

    /// How the path in hand continues from a surface that disperses light or
    /// not and is specular or not, under the bundle's strategy.
    pub fn plan_front(&self, dispersive: bool, specular: bool) -> (p: BouncePlan)
        requires
            self.spec_front() is Some,
        ensures
            p == spec_plan_bounce(self.spec_front()->0.spec_channel(), dispersive, specular, self.spec_strategy()),
    {
        plan_bounce(self.front_channel(), dispersive, specular, self.strategy)
    }

    /// Records that the path in hand reached `point` at this depth.
    pub fn land_front(&mut self, point: P)
        requires
            old(self).wf(),
            old(self).front_fresh(),
        ensures
            final(self).wf(),
            final(self).front_landed(),
            final(self).spec_front()->0.spec_points() == old(self).spec_front()->0.spec_points().push(point),
            final(self).spec_front()->0.spec_sources() == old(self).spec_front()->0.spec_sources().push(
                old(self).spec_front()->0.spec_ray_source(),
            ),
            final(self).spec_front()->0.spec_channel() == old(self).spec_front()->0.spec_channel(),
            final(self).spec_front()->0.spec_ray() == old(self).spec_front()->0.spec_ray(),
            final(self).spec_front()->0.spec_ray_source() == old(self).spec_front()->0.spec_ray_source(),
            final(self).spec_current() == old(self).spec_current(),
            final(self).spec_next() == old(self).spec_next(),
            final(self).spec_finished() == old(self).spec_finished(),
            final(self).spec_depth() == old(self).spec_depth(),
            final(self).spec_max_depth() == old(self).spec_max_depth(),
            final(self).spec_strategy() == old(self).spec_strategy(),
            final(self).spec_has_lights() == old(self).spec_has_lights(),
    {
        let ghost rest = self.current@ + self.next@;
        let ghost d = self.depth as nat;
        let mut taken: Option<ActivePath<P, R>> = None;
        std::mem::swap(&mut taken, &mut self.front);
        match taken {
            Some(mut a) => {
                let ghost a0 = a;
                a.land(point);
                self.front = Some(a);
                assert(self.pending() =~= seq![a] + rest);
                assert(old(self).pending() =~= seq![a0] + rest);
                assert(active_ok(a0, d, self.strategy, self.has_lights));
                assert(active_ok(a, d, self.strategy, self.has_lights)) by {
                    assert forall|j: int| 0 <= j < a.spec_sources().len() implies tag_allowed(
                        #[trigger] a.spec_sources()[j],
                        self.strategy,
                        self.has_lights,
                    ) by {
                        if j < a0.spec_sources().len() {
                            assert(a.spec_sources()[j] == a0.spec_sources()[j]);
                        }
                    }
                }
                assert(all_active_ok(self.pending(), d, self.strategy, self.has_lights)) by {
                    assert forall|k: int| 0 <= k < self.pending().len() implies active_ok(
                        #[trigger] self.pending()[k],
                        d,
                        self.strategy,
                        self.has_lights,
                    ) by {
                        if k > 0 {
                            assert(self.pending()[k] == old(self).pending()[k]);
                        }
                    }
                }
                assert(any_neutral(self.pending()) ==> any_neutral(old(self).pending())) by {
                    if any_neutral(self.pending()) {
                        let k = choose|k: int|
                            0 <= k < self.pending().len() && (#[trigger] self.pending()[k]).spec_channel()
                                == Channel::Neutral;
                        if k > 0 {
                            assert(self.pending()[k] == old(self).pending()[k]);
                        } else {
                            assert(old(self).pending()[0].spec_channel() == Channel::Neutral);
                        }
                    }
                }
            },
            None => {},
        }
    }

    /// Ends the path in hand with `termination`, after it reaches
    /// `escape_point` when there is one.
    fn retire_front(&mut self, termination: Termination, escape_point: Option<P>)
        requires
            old(self).wf(),
            old(self).spec_front() is Some,
            escape_point is Some ==> old(self).front_fresh(),
            escape_point is None ==> old(self).front_landed(),
        ensures
            final(self).wf(),
            final(self).spec_front() is None,
            final(self).spec_current() == old(self).spec_current(),
            final(self).spec_next() == old(self).spec_next(),
            final(self).spec_finished().len() == old(self).spec_finished().len() + 1,
            final(self).spec_finished().drop_last() == old(self).spec_finished(),
            ({
                let t = final(self).spec_finished().last();
                let a = old(self).spec_front()->0;
                &&& t.spec_points() == a.spec_points() + present(escape_point)
                &&& t.spec_sources() == a.spec_sources() + (if escape_point is Some {
                    seq![a.spec_ray_source()]
                } else {
                    Seq::empty()
                })
                &&& t.spec_channel() == a.spec_channel()
                &&& t.spec_termination() == termination
            }),
            final(self).spec_depth() == old(self).spec_depth(),
            final(self).spec_max_depth() == old(self).spec_max_depth(),
            final(self).spec_strategy() == old(self).spec_strategy(),
            final(self).spec_has_lights() == old(self).spec_has_lights(),
    {
        let ghost old_pending = old(self).pending();
        let ghost rest = self.current@ + self.next@;
        let ghost d = self.depth as nat;
        let mut taken: Option<ActivePath<P, R>> = None;
        std::mem::swap(&mut taken, &mut self.front);
        match taken {
            Some(a) => {
                assert(old_pending =~= seq![a] + rest);
                assert(active_ok(old_pending[0], d, self.strategy, self.has_lights));
                let t = match escape_point {
                    Some(q) => {
                        let mut a = a;
                        a.land(q);
                        a.finish(termination)
                    },
                    None => a.finish(termination),
                };
                assert(t.spec_points() =~= a.spec_points() + present(escape_point));
                assert(tags_allowed(t.spec_sources(), self.strategy, self.has_lights)) by {
                    assert forall|j: int| 0 <= j < t.spec_sources().len() implies tag_allowed(
                        #[trigger] t.spec_sources()[j],
                        self.strategy,
                        self.has_lights,
                    ) by {
                        if j < a.spec_sources().len() {
                            assert(t.spec_sources()[j] == a.spec_sources()[j]);
                        }
                    }
                }
                self.finished.push(t);
                assert(self.pending() =~= rest);
                assert(self.pending() =~= old_pending.drop_first());
                assert(self.finished@.drop_last() =~= old(self).finished@);
                assert(all_active_ok(self.pending(), d, self.strategy, self.has_lights)) by {
                    assert forall|k: int| 0 <= k < self.pending().len() implies active_ok(
                        #[trigger] self.pending()[k],
                        d,
                        self.strategy,
                        self.has_lights,
                    ) by {
                        assert(self.pending()[k] == old_pending[k + 1]);
                    }
                }
                assert(all_finished_ok(self.finished@, d, self.strategy, self.has_lights)) by {
                    assert forall|k: int| 0 <= k < self.finished@.len() implies path_ok(
                        #[trigger] self.finished@[k],
                        d,
                        self.strategy,
                        self.has_lights,
                    ) && 1 <= self.finished@[k].spec_points().len() by {
                        if k < old(self).finished@.len() {
                            assert(self.finished@[k] == old(self).finished@[k]);
                        }
                    }
                }
                assert(any_neutral(self.pending()) ==> any_neutral(old_pending)) by {
                    if any_neutral(self.pending()) {
                        let k = choose|k: int|
                            0 <= k < self.pending().len() && (#[trigger] self.pending()[k]).spec_channel()
                                == Channel::Neutral;
                        assert(old_pending[k + 1] == self.pending()[k]);
                    }
                }
            },
            None => {},
        }
    }

    /// Ends the path in hand at `escape_point`, where its ray left the scene
    /// at this depth.
    pub fn escape_front(&mut self, escape_point: P)
        requires
            old(self).wf(),
            old(self).front_fresh(),
        ensures
            final(self).wf(),
            final(self).spec_front() is None,
            final(self).spec_current() == old(self).spec_current(),
            final(self).spec_next() == old(self).spec_next(),
            final(self).spec_finished().len() == old(self).spec_finished().len() + 1,
            final(self).spec_finished().drop_last() == old(self).spec_finished(),
            ({
                let t = final(self).spec_finished().last();
                let a = old(self).spec_front()->0;
                &&& t.spec_points() == a.spec_points().push(escape_point)
                &&& t.spec_sources() == a.spec_sources().push(a.spec_ray_source())
                &&& t.spec_channel() == a.spec_channel()
                &&& t.spec_termination() == Termination::Escaped
            }),
            final(self).spec_depth() == old(self).spec_depth(),
            final(self).spec_max_depth() == old(self).spec_max_depth(),
            final(self).spec_strategy() == old(self).spec_strategy(),
            final(self).spec_has_lights() == old(self).spec_has_lights(),
    {
        self.retire_front(Termination::Escaped, Some(escape_point));
        proof {
            let a = old(self).spec_front()->0;
            assert(a.spec_points() + present(Some(escape_point)) =~= a.spec_points().push(escape_point));
            assert(a.spec_sources() + seq![a.spec_ray_source()] =~= a.spec_sources().push(a.spec_ray_source()));
        }
    }

    /// Ends the path in hand, which reached its point at this depth, as
    /// emitted (it hit a light) or absorbed.
    pub fn finish_front(&mut self, termination: Termination)
        requires
            old(self).wf(),
            old(self).front_landed(),
            termination != Termination::Escaped,
        ensures
            final(self).wf(),
            final(self).spec_front() is None,
            final(self).spec_current() == old(self).spec_current(),
            final(self).spec_next() == old(self).spec_next(),
            final(self).spec_finished().len() == old(self).spec_finished().len() + 1,
            final(self).spec_finished().drop_last() == old(self).spec_finished(),
            ({
                let t = final(self).spec_finished().last();
                let a = old(self).spec_front()->0;
                &&& t.spec_points() == a.spec_points()
                &&& t.spec_sources() == a.spec_sources()
                &&& t.spec_channel() == a.spec_channel()
                &&& t.spec_termination() == termination
            }),
            final(self).spec_depth() == old(self).spec_depth(),
            final(self).spec_max_depth() == old(self).spec_max_depth(),
            final(self).spec_strategy() == old(self).spec_strategy(),
            final(self).spec_has_lights() == old(self).spec_has_lights(),
    {
        self.retire_front(termination, None);
        proof {
            let a = old(self).spec_front()->0;
            assert(a.spec_points() + present(None::<P>) =~= a.spec_points());
            assert(a.spec_sources() + Seq::<SampleSource>::empty() =~= a.spec_sources());
        }
    }

    /// Sends the path in hand, which reached its point at this depth, on to
    /// the next depth along `ray`, at a surface that disperses light or not
    /// and is specular or not (a neutral path at a dispersive surface splits
    /// instead). The new ray's tag follows from the bundle's plan for that
    /// surface and whether `ray` was aimed at a light, which only the mixture
    /// strategy in a scene with lights does.
    pub fn follow_front(&mut self, ray: R, dispersive: bool, specular: bool, toward_light: bool)
        requires
            old(self).wf(),
            old(self).front_landed(),
            spec_plan_bounce(
                old(self).spec_front()->0.spec_channel(),
                dispersive,
                specular,
                old(self).spec_strategy(),
            ) != BouncePlan::Split,
            toward_light ==> old(self).spec_strategy() == SamplingStrategy::Mixture
                && old(self).spec_has_lights(),
        ensures
            final(self).wf(),
            final(self).spec_front() is None,
            final(self).spec_current() == old(self).spec_current(),
            final(self).spec_next().len() == old(self).spec_next().len() + 1,
            final(self).spec_next().drop_last() == old(self).spec_next(),
            ({
                let b = final(self).spec_next().last();
                let a = old(self).spec_front()->0;
                &&& b.spec_ray() == ray
                &&& b.spec_channel() == a.spec_channel()
                &&& b.spec_points() == a.spec_points()
                &&& b.spec_sources() == a.spec_sources()
                &&& b.spec_ray_source() == spec_bounce_source(
                    spec_plan_bounce(a.spec_channel(), dispersive, specular, old(self).spec_strategy()),
                    toward_light,
                )
                &&& specular || a.spec_channel() != Channel::Neutral ==> b.spec_ray_source()
                    == SampleSource::NotSampled
            }),
            final(self).spec_finished() == old(self).spec_finished(),
            final(self).spec_depth() == old(self).spec_depth(),
            final(self).spec_max_depth() == old(self).spec_max_depth(),
            final(self).spec_strategy() == old(self).spec_strategy(),
            final(self).spec_has_lights() == old(self).spec_has_lights(),
    {
        let ghost cur = self.current@;
        let ghost nxt = self.next@;
        let ghost d = self.depth as nat;
        let plan = self.plan_front(dispersive, specular);
        let mut taken: Option<ActivePath<P, R>> = None;
        std::mem::swap(&mut taken, &mut self.front);
        match taken {
            Some(a) => {
                let ghost old_pending = old(self).pending();
                assert(old_pending =~= seq![a] + cur + nxt);
                assert(active_ok(old_pending[0], d, self.strategy, self.has_lights));
                proof {
                    lemma_bounce_source_allowed(
                        a.spec_channel(),
                        dispersive,
                        specular,
                        self.strategy,
                        self.has_lights,
                        toward_light,
                    );
                }
                let b = a.follow(ray, plan, toward_light);
                self.next.push(b);
                assert(self.pending() =~= cur + nxt.push(b));
                assert(all_active_ok(self.pending(), d, self.strategy, self.has_lights)) by {
                    assert forall|k: int| 0 <= k < self.pending().len() implies active_ok(
                        #[trigger] self.pending()[k],
                        d,
                        self.strategy,
                        self.has_lights,
                    ) by {
                        if k < self.pending().len() - 1 {
                            assert(self.pending()[k] == old_pending[k + 1]);
                        }
                    }
                }
                assert(all_points_len(self.next@, d)) by {
                    assert forall|k: int| 0 <= k < self.next@.len() implies (
                    #[trigger] self.next@[k]).spec_points().len() == d by {
                        if k < nxt.len() {
                            assert(self.next@[k] == nxt[k]);
                        }
                    }
                }
                assert(any_neutral(self.pending()) ==> any_neutral(old_pending)) by {
                    if any_neutral(self.pending()) {
                        let k = choose|k: int|
                            0 <= k < self.pending().len() && (#[trigger] self.pending()[k]).spec_channel()
                                == Channel::Neutral;
                        if k < self.pending().len() - 1 {
                            assert(old_pending[k + 1] == self.pending()[k]);
                        } else {
                            assert(old_pending[0].spec_channel() == Channel::Neutral);
                        }
                    }
                }
            },
            None => {},
        }
    }

    /// Ends every path still bouncing as absorbed (it ran out of depths) and
    /// hands back all paths of the bundle: finished ones first, in the order
    /// they finished, then the absorbed ones. There are at most three; each
    /// has one tag per point, at most one point per depth traced, and only
    /// tags its strategy allows: under naive sampling every tag is "not
    /// sampled", a cosine tag needs a strategy other than naive, and a light
    /// tag needs the mixture strategy and a scene with lights.
    pub fn into_paths(self) -> (paths: Vec<TracedPath<P>>)
        requires
            self.wf(),
        ensures
            paths@.len() == self.total(),
            paths@.len() <= 3,
            paths@.take(self.spec_finished().len() as int) == self.spec_finished(),
            forall|k: int|
                0 <= k < self.pending().len() ==> absorbed_as(
                    #[trigger] paths@[self.spec_finished().len() + k],
                    self.pending()[k],
                ),
            forall|k: int|
                0 <= k < paths@.len() ==> {
                    &&& path_ok(
                        #[trigger] paths@[k],
                        self.spec_max_depth(),
                        self.spec_strategy(),
                        self.spec_has_lights(),
                    )
                    &&& paths@[k].spec_points().len() == paths@[k].spec_sources().len()
                },
            self.spec_strategy() == SamplingStrategy::Naive ==> forall|k: int, j: int|
                0 <= k < paths@.len() && 0 <= j < paths@[k].spec_sources().len() ==> (
                #[trigger] paths@[k].spec_sources()[j]) == SampleSource::NotSampled,
    {
        let ghost pend = self.pending();
        let ghost fin = self.finished@;
        let ghost d = self.depth as nat;
        let ghost md = self.max_depth as nat;
        let ghost st = self.strategy;
        let ghost hl = self.has_lights;
        let BundleTrace { front, current, next, finished, .. } = self;
        let mut out = finished;
        let mut rest: Vec<ActivePath<P, R>> = Vec::new();
        match front {
            Some(a) => rest.push(a),
            None => {},
        }
        let mut current = current;
        let mut next = next;
        rest.append(&mut current);
        rest.append(&mut next);
        assert(rest@ =~= pend);
        let n = rest.len();
        let mut i: usize = 0;
        while rest.len() > 0
            invariant
                n == pend.len(),
                rest@.len() + i == n,
                rest@ =~= pend.skip(i as int),
                d <= md,
                all_active_ok(pend, d, st, hl),
                all_finished_ok(fin, d, st, hl),
                out@.len() == fin.len() + i,
                out@.take(fin.len() as int) =~= fin,
                forall|k: int| 0 <= k < out@.len() ==> path_ok(#[trigger] out@[k], d, st, hl),
                forall|k: int| 0 <= k < i ==> absorbed_as(#[trigger] out@[fin.len() + k], pend[k]),
            decreases rest@.len(),
        {
            let a = rest.remove(0);
            assert(a == pend[i as int]);
            assert(active_ok(pend[i as int], d, st, hl));
            let t = a.finish(Termination::Absorbed);
            out.push(t);
            assert(rest@ =~= pend.skip(i + 1));
            assert(out@.take(fin.len() as int) =~= fin) by {
                assert forall|k: int| 0 <= k < fin.len() implies out@[k] == fin[k] by {
                    assert(out@[k] == out@.drop_last()[k]);
                }
            }
            assert forall|k: int| 0 <= k < out@.len() implies path_ok(#[trigger] out@[k], d, st, hl) by {
                if k < out@.len() - 1 {
                    assert(out@[k] == out@.drop_last()[k]);
                }
            }
            assert forall|k: int| 0 <= k < i + 1 implies absorbed_as(#[trigger] out@[fin.len() + k], pend[k]) by {
                if k < i {
                    assert(out@[fin.len() + k] == out@.drop_last()[fin.len() + k]);
                }
            }
            i = i + 1;
        }
        assert forall|k: int| 0 <= k < out@.len() implies path_ok(#[trigger] out@[k], md, st, hl) by {
            assert(path_ok(out@[k], d, st, hl));
        }
        out
    }
}

impl<P: Copy, R> BundleTrace<P, R> {
    /// Splits the neutral path in hand, which reached a dispersive surface at
    /// this depth, into one path per colour channel the material refracts
    /// (the red one always); they go on to the next depth.
    pub fn split_front(&mut self, red: Option<R>, green: Option<R>, blue: Option<R>)
        requires
            old(self).wf(),
            old(self).front_landed(),
            old(self).spec_front()->0.spec_channel() == Channel::Neutral,
            red is Some,
        ensures
            final(self).wf(),
            final(self).spec_front() is None,
            final(self).spec_current().len() == 0,
            final(self).spec_next() == final(self).pending(),
            final(self).pending().len() == split_channels(red is Some, green is Some, blue is Some).len(),
            forall|k: int|
                0 <= k < final(self).pending().len() ==> {
                    &&& (#[trigger] final(self).pending()[k]).spec_channel() == split_channels(
                        red is Some,
                        green is Some,
                        blue is Some,
                    )[k]
                    &&& final(self).pending()[k].spec_points() == old(self).spec_front()->0.spec_points()
                    &&& final(self).pending()[k].spec_sources() == old(self).spec_front()->0.spec_sources()
                    &&& final(self).pending()[k].spec_ray_source() == SampleSource::NotSampled
                    &&& final(self).pending()[k].spec_ray() == split_rays(red, green, blue)[k]
                },
            final(self).spec_finished() == old(self).spec_finished(),
            final(self).spec_depth() == old(self).spec_depth(),
            final(self).spec_max_depth() == old(self).spec_max_depth(),
            final(self).spec_strategy() == old(self).spec_strategy(),
            final(self).spec_has_lights() == old(self).spec_has_lights(),
    {
        let ghost old_pending = old(self).pending();
        let ghost d = self.depth as nat;
        let mut taken: Option<ActivePath<P, R>> = None;
        std::mem::swap(&mut taken, &mut self.front);
        match taken {
            Some(a) => {
                assert(old_pending[0] == a);
                assert(any_neutral(old_pending));
                assert(active_ok(old_pending[0], d, self.strategy, self.has_lights));
                assert(self.current@.len() == 0 && self.next@.len() == 0 && self.finished@.len() == 0);
                let mut parts = a.split(red, green, blue);
                self.next.append(&mut parts);
                assert(self.pending() =~= self.next@);
                assert(all_active_ok(self.pending(), d, self.strategy, self.has_lights)) by {
                    assert forall|k: int| 0 <= k < self.pending().len() implies active_ok(
                        #[trigger] self.pending()[k],
                        d,
                        self.strategy,
                        self.has_lights,
                    ) by {
                        assert(self.pending()[k].spec_sources() == a.spec_sources());
                    }
                }
            },
            None => {},
        }
    }
}

} // verus!
