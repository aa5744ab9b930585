use vstd::prelude::*;

verus! {

/// Whether the lattice cell `(x, y, z)` of a 3D checker pattern shows the
/// "even" texture: the cell's coordinate sum is even.
pub open spec fn spec_checker_is_even(x: int, y: int, z: int) -> bool {
    (x + y + z) % 2 == 0
}

/// Picks the checker texture for lattice cell `(x, y, z)` (the floors of the
/// scaled hit point): `true` for the even texture.
pub fn checker_cell_is_even(x: isize, y: isize, z: isize) -> (even: bool)
    requires
        isize::MIN <= x + y <= isize::MAX,
        isize::MIN <= x + y + z <= isize::MAX,
    ensures
        even == spec_checker_is_even(x as int, y as int, z as int),
{
    let s: isize = x + y + z;
    s % 2 == 0
}

/// Stepping one cell along any axis switches between the two textures, and
/// the cell at the origin shows the even one.
pub proof fn lemma_checker_alternates(x: int, y: int, z: int)
    ensures
        spec_checker_is_even(0, 0, 0),
        spec_checker_is_even(x + 1, y, z) == !spec_checker_is_even(x, y, z),
        spec_checker_is_even(x, y + 1, z) == !spec_checker_is_even(x, y, z),
        spec_checker_is_even(x, y, z + 1) == !spec_checker_is_even(x, y, z),
{
}

} // verus!
