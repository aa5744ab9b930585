use vstd::prelude::*;
use rand::rngs::ThreadRng;
use rand::seq::SliceRandom;

verus! {

broadcast use vstd::seq_lib::group_to_multiset_ensures;

#[verifier::external_type_specification]
#[verifier::external_body]
pub struct ExThreadRng(ThreadRng);

/// Calls `rand::rng`, a handle to the thread-local random generator. Nothing
/// is stated of the handle: its state is the generator's. The crate panics
/// here if the operating system cannot seed the generator, which no
/// precondition can rule out.
#[verifier::external_body]
fn thread_rng() -> ThreadRng {
    rand::rng()
}

/// Calls `SliceRandom::shuffle` on the vector's elements. The crate shuffles
/// by swapping elements in place (a Fisher-Yates shuffle), so the vector keeps
/// its length and exactly the same elements; which order comes out depends on
/// the generator and is left unsaid.
#[verifier::external_body]
fn shuffle_points(values: &mut Vec<u16>, rng: &mut ThreadRng)
    ensures
        final(values)@.len() == old(values)@.len(),
        final(values)@.to_multiset() == old(values)@.to_multiset(),
{
    values.shuffle(rng)
}

/// Number of lattice gradient points, and the length of each permutation table.
pub const POINT_COUNT: u16 = 256;

/// The point indices `0, 1, ..., 255` in order.
pub open spec fn identity_points() -> Seq<u16> {
    Seq::new(POINT_COUNT as nat, |i: int| i as u16)
}

/// `s` holds every point index exactly once, in some order.
pub open spec fn is_point_permutation(s: Seq<u16>) -> bool {
    s.to_multiset() == identity_points().to_multiset()
}

/// The three permutation tables of Perlin noise, which hash an integer
/// lattice corner to one of the `POINT_COUNT` gradient vectors.
#[derive(Debug)]
pub struct LatticeHash {
    perm_x: Vec<u16>,
    perm_y: Vec<u16>,
    perm_z: Vec<u16>,
}

/// Every entry of a point permutation is a valid point index.
pub proof fn lemma_permutation_entries_in_range(s: Seq<u16>)
    requires
        is_point_permutation(s),
    ensures
        s.len() == POINT_COUNT,
        forall|k: int| 0 <= k < s.len() ==> #[trigger] s[k] < POINT_COUNT,
{
    let ids = identity_points();
    assert(ids.len() == POINT_COUNT);
    assert(s.len() == s.to_multiset().len());
    assert(ids.len() == ids.to_multiset().len());
    assert forall|k: int| 0 <= k < s.len() implies #[trigger] s[k] < POINT_COUNT by {
        assert(s.contains(s[k]));
        assert(s.to_multiset().count(s[k]) > 0);
        assert(ids.to_multiset().count(s[k]) > 0);
        assert(ids.contains(s[k]));
        let j = choose|j: int| 0 <= j < ids.len() && ids[j] == s[k];
        assert(ids[j] == j as u16);
    }
}

/// A point permutation holds no index twice: different positions hold
/// different point indices.
pub proof fn lemma_permutation_entries_distinct(s: Seq<u16>)
    requires
        is_point_permutation(s),
    ensures
        forall|a: int, b: int| 0 <= a < s.len() && 0 <= b < s.len() && a != b ==> #[trigger] s[a] != #[trigger] s[b],
{
    let ids = identity_points();
    assert(ids.no_duplicates()) by {
        assert forall|a: int, b: int| 0 <= a < ids.len() && 0 <= b < ids.len() && a != b implies ids[a] != ids[b] by {
            assert(ids[a] == a as u16 && ids[b] == b as u16);
        }
    }
    ids.lemma_multiset_has_no_duplicates();
    s.lemma_multiset_has_no_duplicates_conv();
}

/// A fresh random ordering of the point indices.
fn shuffled_points(rng: &mut ThreadRng) -> (perm: Vec<u16>)
    ensures
        is_point_permutation(perm@),
{
    let mut perm: Vec<u16> = Vec::with_capacity(256);
    let mut i: u16 = 0;
    while i < POINT_COUNT
        invariant
            i <= POINT_COUNT,
            perm@ =~= identity_points().take(i as int),
        decreases POINT_COUNT - i,
    {
        perm.push(i);
        i = i + 1;
    }
    assert(perm@ =~= identity_points());
    shuffle_points(&mut perm, rng);
    perm
}

impl LatticeHash {
    #[verifier::type_invariant]
    spec fn tables_are_permutations(self) -> bool {
        &&& is_point_permutation(self.perm_x@)
        &&& is_point_permutation(self.perm_y@)
        &&& is_point_permutation(self.perm_z@)
    }

    /// The permutation tables for the x, y and z lattice coordinates.
    pub closed spec fn tables(self) -> (Seq<u16>, Seq<u16>, Seq<u16>) {
        (self.perm_x@, self.perm_y@, self.perm_z@)
    }

    /// Gradient index for the lattice corner `(i, j, k)`: the XOR of the three
    /// tables read at each coordinate modulo `POINT_COUNT`.
    pub open spec fn spec_lattice_index(self, i: int, j: int, k: int) -> int {
        (self.tables().0[i % 256] ^ self.tables().1[j % 256] ^ self.tables().2[k % 256]) as int
    }

    /// The corner hash repeats every `POINT_COUNT` lattice cells along each axis.
    pub proof fn lemma_lattice_index_periodic(self, i: int, j: int, k: int)
        ensures
            self.spec_lattice_index(i + 256, j, k) == self.spec_lattice_index(i, j, k),
            self.spec_lattice_index(i, j + 256, k) == self.spec_lattice_index(i, j, k),
            self.spec_lattice_index(i, j, k + 256) == self.spec_lattice_index(i, j, k),
    {
        assert((i + 256) % 256 == i % 256);
        assert((j + 256) % 256 == j % 256);
        assert((k + 256) % 256 == k % 256);
    }

    /// Corners that differ along exactly one axis, modulo the period of
    /// `POINT_COUNT` cells, hash to different gradients: each coordinate is
    /// read through its own table, x through the first, y through the second
    /// and z through the third, and each table is a permutation.
    pub proof fn lemma_lattice_index_separates_axes(self, i: int, j: int, k: int, other: int)
        requires
            is_point_permutation(self.tables().0),
            is_point_permutation(self.tables().1),
            is_point_permutation(self.tables().2),
        ensures
            other % 256 != i % 256 ==> self.spec_lattice_index(other, j, k) != self.spec_lattice_index(i, j, k),
            other % 256 != j % 256 ==> self.spec_lattice_index(i, other, k) != self.spec_lattice_index(i, j, k),
            other % 256 != k % 256 ==> self.spec_lattice_index(i, j, other) != self.spec_lattice_index(i, j, k),
    {
        let (tx, ty, tz) = self.tables();
        lemma_permutation_entries_distinct(tx);
        lemma_permutation_entries_distinct(ty);
        lemma_permutation_entries_distinct(tz);
        lemma_permutation_entries_in_range(tx);
        lemma_permutation_entries_in_range(ty);
        lemma_permutation_entries_in_range(tz);
        let (a, b, c) = (tx[i % 256], ty[j % 256], tz[k % 256]);
        let (a2, b2, c2) = (tx[other % 256], ty[other % 256], tz[other % 256]);
        if other % 256 != i % 256 {
            assert(a2 != a);
            assert(a2 ^ b ^ c != a ^ b ^ c) by (bit_vector)
                requires
                    a2 != a,
            ;
        }
        if other % 256 != j % 256 {
            assert(b2 != b);
            assert(a ^ b2 ^ c != a ^ b ^ c) by (bit_vector)
                requires
                    b2 != b,
            ;
        }
        if other % 256 != k % 256 {
            assert(c2 != c);
            assert(a ^ b ^ c2 != a ^ b ^ c) by (bit_vector)
                requires
                    c2 != c,
            ;
        }
    }

    /// Three independently shuffled permutation tables.
    pub fn new() -> (h: Self)
        ensures
            is_point_permutation(h.tables().0),
            is_point_permutation(h.tables().1),
            is_point_permutation(h.tables().2),
    {
        let mut rng = thread_rng();
        let perm_x = shuffled_points(&mut rng);
        let perm_y = shuffled_points(&mut rng);
        let perm_z = shuffled_points(&mut rng);
        LatticeHash { perm_x, perm_y, perm_z }
    }

    /// Index of the gradient vector for lattice corner `(i, j, k)`; always a
    /// valid index into the `POINT_COUNT` gradients.
    pub fn lattice_index(&self, i: isize, j: isize, k: isize) -> (r: usize)
        ensures
            r == self.spec_lattice_index(i as int, j as int, k as int),
            r == (self.tables().0[(i as int) % 256] ^ self.tables().1[(j as int) % 256] ^ self.tables().2[(
            k as int) % 256]) as int,
            is_point_permutation(self.tables().0),
            is_point_permutation(self.tables().1),
            is_point_permutation(self.tables().2),
            r < POINT_COUNT,
    {
        proof {
            use_type_invariant(self);
            lemma_permutation_entries_in_range(self.perm_x@);
            lemma_permutation_entries_in_range(self.perm_y@);
            lemma_permutation_entries_in_range(self.perm_z@);
        }
        let ii = i & 255;
        let jj = j & 255;
        let kk = k & 255;
        assert(ii as int == (i as int) % 256 && 0 <= ii < 256) by (bit_vector)
            requires
                ii == i & 255,
        ;
        assert(jj as int == (j as int) % 256 && 0 <= jj < 256) by (bit_vector)
            requires
                jj == j & 255,
        ;
        assert(kk as int == (k as int) % 256 && 0 <= kk < 256) by (bit_vector)
            requires
                kk == k & 255,
        ;
        let a = self.perm_x[ii as usize];
        let b = self.perm_y[jj as usize];
        let c = self.perm_z[kk as usize];
        assert((a ^ b ^ c) < 256) by (bit_vector)
            requires
                a < 256,
                b < 256,
                c < 256,
        ;
        (a ^ b ^ c) as usize
    }
}

} // verus!
