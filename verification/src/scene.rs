use vstd::prelude::*;

verus! {

/// How the path tracer picks the direction of a diffuse bounce.
#[derive(Debug, Clone, Copy, PartialEq, Eq, Structural)]
pub enum SamplingStrategy {
    /// The material's own random scatter.
    Naive,
    /// Cosine-weighted importance sampling around the surface normal.
    Cosine,
    /// An even mixture of cosine sampling and sampling toward the lights.
    Mixture,
}

pub open spec fn spec_strategy_from_mode(mode: u32) -> SamplingStrategy {
    if mode == 1 {
        SamplingStrategy::Cosine
    } else if mode == 2 {
        SamplingStrategy::Mixture
    } else {
        SamplingStrategy::Naive
    }
}

impl SamplingStrategy {
    /// Decodes the front end's strategy number: 1 cosine, 2 mixture, and
    /// anything else naive.
    pub fn from_mode(mode: u32) -> (s: Self)
        ensures
            s == spec_strategy_from_mode(mode),
            mode == 1 ==> s == SamplingStrategy::Cosine,
            mode == 2 ==> s == SamplingStrategy::Mixture,
            mode != 1 && mode != 2 ==> s == SamplingStrategy::Naive,
    {
        match mode {
            1 => SamplingStrategy::Cosine,
            2 => SamplingStrategy::Mixture,
            _ => SamplingStrategy::Naive,
        }
    }
}

/// The built-in scenes the front end can load.
#[derive(Debug, Clone, Copy, PartialEq, Eq, Structural)]
pub enum Preset {
    Classic,
    CornellBox,
    FoggyRoom,
    DispersivePrism,
    DepthOfField,
}

pub open spec fn spec_preset_from_id(id: u32) -> Preset {
    if id == 1 {
        Preset::CornellBox
    } else if id == 2 {
        Preset::FoggyRoom
    } else if id == 3 {
        Preset::DispersivePrism
    } else if id == 4 {
        Preset::DepthOfField
    } else {
        Preset::Classic
    }
}

impl Preset {
    /// Decodes a preset number: 1 Cornell box, 2 foggy room, 3 dispersive
    /// prism, 4 depth of field; anything else falls back to the classic scene.
    pub fn from_id(id: u32) -> (p: Self)
        ensures
            p == spec_preset_from_id(id),
            id == 1 ==> p == Preset::CornellBox,
            id == 2 ==> p == Preset::FoggyRoom,
            id == 3 ==> p == Preset::DispersivePrism,
            id == 4 ==> p == Preset::DepthOfField,
            (id == 0 || id > 4) ==> p == Preset::Classic,
    {
        match id {
            1 => Preset::CornellBox,
            2 => Preset::FoggyRoom,
            3 => Preset::DispersivePrism,
            4 => Preset::DepthOfField,
            _ => Preset::Classic,
        }
    }
}

/// Front-end code of the metal material.
pub const KIND_METAL: u32 = 1;

/// Front-end code of the dielectric material.
pub const KIND_DIALECTRIC: u32 = 2;

/// The materials a sphere of the classic scene can be switched to.
#[derive(Debug, Clone, Copy, PartialEq, Eq, Structural)]
pub enum SphereMaterialKind {
    Lambertian,
    Metal,
    Dielectric,
}

pub open spec fn spec_material_from_kind(kind: u32) -> SphereMaterialKind {
    if kind == KIND_METAL {
        SphereMaterialKind::Metal
    } else if kind == KIND_DIALECTRIC {
        SphereMaterialKind::Dielectric
    } else {
        SphereMaterialKind::Lambertian
    }
}

impl SphereMaterialKind {
    /// Decodes a material code: metal, dielectric, and anything else Lambertian.
    pub fn from_kind(kind: u32) -> (m: Self)
        ensures
            m == spec_material_from_kind(kind),
            kind == 1 ==> m == SphereMaterialKind::Metal,
            kind == 2 ==> m == SphereMaterialKind::Dielectric,
            kind != 1 && kind != 2 ==> m == SphereMaterialKind::Lambertian,
    {
        if kind == KIND_METAL {
            SphereMaterialKind::Metal
        } else if kind == KIND_DIALECTRIC {
            SphereMaterialKind::Dielectric
        } else {
            SphereMaterialKind::Lambertian
        }
    }
}

/// The front end's numbers decode one to one: strategies 0 naive, 1 cosine, 2
/// mixture; presets 0 classic, 1 Cornell box, 2 foggy room, 3 dispersive
/// prism, 4 depth of field; sphere materials 0 Lambertian, 1 metal, 2
/// dielectric. Every other number falls back to the first of its list, and
/// each variant is reached by its own number.
pub proof fn lemma_front_end_codes(n: u32)
    ensures
        spec_strategy_from_mode(0) == SamplingStrategy::Naive,
        spec_strategy_from_mode(1) == SamplingStrategy::Cosine,
        spec_strategy_from_mode(2) == SamplingStrategy::Mixture,
        n > 2 ==> spec_strategy_from_mode(n) == SamplingStrategy::Naive,
        spec_preset_from_id(0) == Preset::Classic,
        spec_preset_from_id(1) == Preset::CornellBox,
        spec_preset_from_id(2) == Preset::FoggyRoom,
        spec_preset_from_id(3) == Preset::DispersivePrism,
        spec_preset_from_id(4) == Preset::DepthOfField,
        n > 4 ==> spec_preset_from_id(n) == Preset::Classic,
        spec_material_from_kind(0) == SphereMaterialKind::Lambertian,
        spec_material_from_kind(1) == SphereMaterialKind::Metal,
        spec_material_from_kind(2) == SphereMaterialKind::Dielectric,
        n > 2 ==> spec_material_from_kind(n) == SphereMaterialKind::Lambertian,
{
}

/// `n`, raised to one if it is zero: sample counts and bounce depths are
/// never taken as zero.
pub fn at_least_one(n: u32) -> (r: u32)
    ensures
        r >= 1,
        r == (if n == 0 { 1 } else { n }),
{
    if n < 1 {
        1
    } else {
        n
    }
}

/// `n` copies of `value`.
pub open spec fn filled<T>(value: T, n: nat) -> Seq<T> {
    Seq::new(n, |_i: int| value)
}

fn filled_vec<T: Copy>(value: T, n: usize) -> (v: Vec<T>)
    ensures
        v@ == filled(value, n as nat),
{
    let mut v: Vec<T> = Vec::with_capacity(n);
    let mut i: usize = 0;
    while i < n
        invariant
            0 <= i <= n,
            v@ =~= filled(value, i as nat),
        decreases n - i,
    {
        v.push(value);
        i = i + 1;
    }
    v
}

/// The state of a progressive render: the image size, one running colour sum
/// per pixel (row by row), how many samples per pixel those sums hold, the
/// bounce limit and the sampling strategy.
pub struct ProgressiveRender<T> {
    width: u32,
    height: u32,
    accum: Vec<T>,
    sample_count: u32,
    max_depth: u32,
    strategy: SamplingStrategy,
}

impl<T> ProgressiveRender<T> {
    /// The sums cover every pixel and the bounce limit is at least one.
    pub closed spec fn wf(self) -> bool {
        &&& self.accum@.len() == self.width * self.height
        &&& self.width * self.height <= u32::MAX
        &&& self.max_depth >= 1
    }

    pub closed spec fn spec_width(self) -> nat {
        self.width as nat
    }

    pub closed spec fn spec_height(self) -> nat {
        self.height as nat
    }

    /// The running per-pixel sums, row by row.
    pub closed spec fn sums(self) -> Seq<T> {
        self.accum@
    }

    pub closed spec fn spec_sample_count(self) -> nat {
        self.sample_count as nat
    }

    pub closed spec fn spec_max_depth(self) -> nat {
        self.max_depth as nat
    }

    pub closed spec fn spec_strategy(self) -> SamplingStrategy {
        self.strategy
    }

}

impl<T: Copy> ProgressiveRender<T> {
    /// A cleared render of `width` by `height` pixels, with naive sampling.
    pub fn new(width: u32, height: u32, zero: T, max_depth: u32) -> (r: Self)
        requires
            width * height <= u32::MAX,
            max_depth >= 1,
        ensures
            r.wf(),
            r.spec_width() == width,
            r.spec_height() == height,
            r.sums() == filled(zero, (width * height) as nat),
            r.spec_sample_count() == 0,
            r.spec_max_depth() == max_depth,
            r.spec_strategy() == SamplingStrategy::Naive,
    {
        let n: u32 = width * height;
        ProgressiveRender {
            width,
            height,
            accum: filled_vec(zero, n as usize),
            sample_count: 0,
            max_depth,
            strategy: SamplingStrategy::Naive,
        }
    }

    pub fn width(&self) -> (w: u32)
        requires
            self.wf(),
        ensures
            w == self.spec_width(),
    {
        self.width
    }

    pub fn height(&self) -> (h: u32)
        requires
            self.wf(),
        ensures
            h == self.spec_height(),
    {
        self.height
    }

    pub fn sample_count(&self) -> (n: u32)
        requires
            self.wf(),
        ensures
            n == self.spec_sample_count(),
    {
        self.sample_count
    }

    pub fn max_depth(&self) -> (d: u32)
        requires
            self.wf(),
        ensures
            d == self.spec_max_depth(),
            d >= 1,
    {
        self.max_depth
    }

    pub fn strategy(&self) -> (s: SamplingStrategy)
        requires
            self.wf(),
        ensures
            s == self.spec_strategy(),
    {
        self.strategy
    }

    /// The running per-pixel sums, row by row.
    pub fn pixels(&self) -> (p: &Vec<T>)
        requires
            self.wf(),
        ensures
            p@ == self.sums(),
            p@.len() == self.spec_width() * self.spec_height(),
    {
        &self.accum
    }

    /// What the sums are divided by to give the average colour: the sample
    /// count, or one before any sample was taken.
    pub fn sample_divisor(&self) -> (d: u32)
        requires
            self.wf(),
        ensures
            d >= 1,
            d == (if self.spec_sample_count() == 0 { 1 } else { self.spec_sample_count() }),
    {
        at_least_one(self.sample_count)
    }

    /// Clears every sum to `zero` and forgets the samples taken so far.
    pub fn reset_accumulation(&mut self, zero: T)
        requires
            old(self).wf(),
        ensures
            final(self).wf(),
            final(self).sums() == filled(zero, old(self).sums().len()),
            final(self).spec_sample_count() == 0,
            final(self).spec_width() == old(self).spec_width(),
            final(self).spec_height() == old(self).spec_height(),
            final(self).spec_max_depth() == old(self).spec_max_depth(),
            final(self).spec_strategy() == old(self).spec_strategy(),
    {
        let n = self.accum.len();
        let mut i: usize = 0;
        while i < n
            invariant
                n == self.accum@.len(),
                n == old(self).accum@.len(),
                self.width == old(self).width,
                self.height == old(self).height,
                self.max_depth == old(self).max_depth,
                self.strategy == old(self).strategy,
                old(self).wf(),
                0 <= i <= n,
                forall|k: int| 0 <= k < i ==> #[trigger] self.accum@[k] == zero,
            decreases n - i,
        {
            self.accum.set(i, zero);
            i = i + 1;
        }
        self.sample_count = 0;
        assert(self.accum@ =~= filled(zero, n as nat));
    }

    /// Switches to the strategy numbered `mode` and restarts accumulation.
    pub fn set_sampling_strategy(&mut self, mode: u32, zero: T)
        requires
            old(self).wf(),
        ensures
            final(self).wf(),
            final(self).spec_strategy() == spec_strategy_from_mode(mode),
            final(self).sums() == filled(zero, old(self).sums().len()),
            final(self).spec_sample_count() == 0,
            final(self).spec_width() == old(self).spec_width(),
            final(self).spec_height() == old(self).spec_height(),
            final(self).spec_max_depth() == old(self).spec_max_depth(),
    {
        self.strategy = SamplingStrategy::from_mode(mode);
        self.reset_accumulation(zero);
    }

    /// Sets the bounce limit (at least one) and restarts accumulation.
    pub fn set_max_depth(&mut self, depth: u32, zero: T)
        requires
            old(self).wf(),
        ensures
            final(self).wf(),
            final(self).spec_max_depth() == (if depth == 0 { 1 } else { depth }),
            final(self).sums() == filled(zero, old(self).sums().len()),
            final(self).spec_sample_count() == 0,
            final(self).spec_width() == old(self).spec_width(),
            final(self).spec_height() == old(self).spec_height(),
            final(self).spec_strategy() == old(self).spec_strategy(),
    {
        self.max_depth = at_least_one(depth);
        self.reset_accumulation(zero);
    }

    /// Changes the image size, clearing all sums; strategy and bounce limit stay.
    pub fn resize(&mut self, width: u32, height: u32, zero: T)
        requires
            old(self).wf(),
            width * height <= u32::MAX,
        ensures
            final(self).wf(),
            final(self).spec_width() == width,
            final(self).spec_height() == height,
            final(self).sums() == filled(zero, (width * height) as nat),
            final(self).spec_sample_count() == 0,
            final(self).spec_max_depth() == old(self).spec_max_depth(),
            final(self).spec_strategy() == old(self).spec_strategy(),
    {
        let n: u32 = width * height;
        self.width = width;
        self.height = height;
        self.accum = filled_vec(zero, n as usize);
        self.sample_count = 0;
    }

    /// Position of pixel `(i, j)` (column, row) in the row-by-row sums.
    pub fn pixel_index(&self, i: u32, j: u32) -> (idx: usize)
        requires
            self.wf(),
            i < self.spec_width(),
            j < self.spec_height(),
        ensures
            idx == j * self.spec_width() + i,
            idx < self.sums().len(),
    {
        proof {
            assert(j * self.width + i < self.width * self.height) by (nonlinear_arith)
                requires
                    i < self.width,
                    j < self.height,
            ;
            assert(0 <= j * self.width) by (nonlinear_arith)
                requires
                    0 <= j,
                    0 <= self.width,
            ;
        }
        (j * self.width + i) as usize
    }

    /// The running sum of the pixel at position `idx`.
    pub fn pixel(&self, idx: usize) -> (v: T)
        requires
            self.wf(),
            idx < self.sums().len(),
        ensures
            v == self.sums()[idx as int],
    {
        self.accum[idx]
    }

    /// Replaces the running sum of the pixel at position `idx`.
    pub fn set_pixel(&mut self, idx: usize, value: T)
        requires
            old(self).wf(),
            idx < old(self).sums().len(),
        ensures
            final(self).wf(),
            final(self).sums() == old(self).sums().update(idx as int, value),
            final(self).spec_sample_count() == old(self).spec_sample_count(),
            final(self).spec_width() == old(self).spec_width(),
            final(self).spec_height() == old(self).spec_height(),
            final(self).spec_max_depth() == old(self).spec_max_depth(),
            final(self).spec_strategy() == old(self).spec_strategy(),
    {
        self.accum.set(idx, value);
    }

    /// Records that every pixel sum now holds `samples` more samples.
    pub fn record_pass(&mut self, samples: u32)
        requires
            old(self).wf(),
            old(self).spec_sample_count() + samples <= u32::MAX,
        ensures
            final(self).wf(),
            final(self).spec_sample_count() == old(self).spec_sample_count() + samples,
            final(self).sums() == old(self).sums(),
            final(self).spec_width() == old(self).spec_width(),
            final(self).spec_height() == old(self).spec_height(),
            final(self).spec_max_depth() == old(self).spec_max_depth(),
            final(self).spec_strategy() == old(self).spec_strategy(),
    {
        self.sample_count = self.sample_count + samples;
    }
}

/// Distinct pixels of a `width`-wide image have distinct positions in the
/// row-by-row sums, so each pixel accumulates only its own samples.
pub proof fn lemma_pixel_index_injective(width: int, i1: int, j1: int, i2: int, j2: int)
    requires
        0 <= i1 < width,
        0 <= i2 < width,
        0 <= j1,
        0 <= j2,
        j1 * width + i1 == j2 * width + i2,
    ensures
        i1 == i2,
        j1 == j2,
{
    if j1 < j2 {
        assert(j1 * width + width <= j2 * width) by (nonlinear_arith)
            requires
                j1 < j2,
                0 <= width,
        ;
    } else if j2 < j1 {
        assert(j2 * width + width <= j1 * width) by (nonlinear_arith)
            requires
                j2 < j1,
                0 <= width,
        ;
    }
}

/// Interleaves quantised RGB pixels into RGBA bytes with an opaque alpha.
pub fn pack_rgba(rgb: &Vec<[u8; 3]>) -> (out: Vec<u8>)
    requires
        4 * rgb@.len() <= usize::MAX,
    ensures
        out@.len() == 4 * rgb@.len(),
        forall|k: int, c: int|
            0 <= k < rgb@.len() && 0 <= c < 3 ==> #[trigger] out@[4 * k + c] == rgb@[k][c],
        forall|k: int| 0 <= k < rgb@.len() ==> #[trigger] out@[4 * k + 3] == 255u8,
{
    let n = rgb.len();
    let mut out: Vec<u8> = Vec::with_capacity(4 * n);
    let mut i: usize = 0;
    while i < n
        invariant
            n == rgb@.len(),
            4 * n <= usize::MAX,
            0 <= i <= n,
            out@.len() == 4 * i,
            forall|k: int, c: int|
                0 <= k < i && 0 <= c < 3 ==> #[trigger] out@[4 * k + c] == rgb@[k][c],
            forall|k: int| 0 <= k < i ==> #[trigger] out@[4 * k + 3] == 255u8,
        decreases n - i,
    {
        let p = rgb[i];
        out.push(p[0]);
        out.push(p[1]);
        out.push(p[2]);
        out.push(255u8);
        i = i + 1;
    }
    out
}

} // verus!
