use vstd::prelude::*;
use crate::colour::{linear_channel, linearize_channels};

verus! {

/// A decoded RGB image with 8-bit channels, held in linear space: rows top to
/// bottom, pixels left to right, three interleaved channel bytes per pixel.
#[derive(Debug)]
pub struct RTWImage {
    width: usize,
    height: usize,
    data: Vec<u8>,
}

/// Clamps a pixel coordinate into `[low, high)`: below `low` gives `low`,
/// at or past `high` gives the last coordinate `high - 1`.
pub open spec fn clamp_coord(x: int, low: int, high: int) -> int {
    if x < low {
        low
    } else if x < high {
        x
    } else {
        high - 1
    }
}

/// Inside `[0, high)` a coordinate is kept as it is; at or past `high` it
/// reads the last column or row, `high - 1`, however far past it lies; and the
/// result always lies in `[0, high)`.
pub proof fn lemma_clamp_coord_edges(x: int, high: int)
    requires
        0 <= x,
        0 < high,
    ensures
        x < high ==> clamp_coord(x, 0, high) == x,
        x >= high ==> clamp_coord(x, 0, high) == high - 1,
        0 <= clamp_coord(x, 0, high) < high,
        x >= high ==> clamp_coord(x, 0, high) == clamp_coord(x + 1, 0, high),
{
}

impl RTWImage {
    #[verifier::type_invariant]
    spec fn shape_matches(self) -> bool {
        self.data@.len() == 3 * self.width * self.height
    }

    pub closed spec fn spec_width(self) -> nat {
        self.width as nat
    }

    pub closed spec fn spec_height(self) -> nat {
        self.height as nat
    }

    /// Channel `c` (0 red, 1 green, 2 blue) of the pixel at column `x`, row `y`.
    pub closed spec fn channel(self, x: int, y: int, c: int) -> u8 {
        self.data@[3 * (y * self.width + x) + c]
    }

    /// Builds an image from gamma-encoded RGB bytes of the given size,
    /// converting every channel into linear space.
    pub fn new(width: usize, height: usize, rgb: Vec<u8>) -> (img: Self)
        requires
            rgb@.len() == 3 * width * height,
        ensures
            img.spec_width() == width,
            img.spec_height() == height,
            forall|x: int, y: int, c: int|
                0 <= x < width && 0 <= y < height && 0 <= c < 3 ==> #[trigger] img.channel(x, y, c)
                    as int == linear_channel(rgb@[3 * (y * width + x) + c] as int),
    {
        let mut data = rgb;
        linearize_channels(&mut data);
        let img = RTWImage { width, height, data };
        assert forall|x: int, y: int, c: int|
            0 <= x < width && 0 <= y < height && 0 <= c < 3 implies #[trigger] img.channel(x, y, c)
                as int == linear_channel(rgb@[3 * (y * width + x) + c] as int) by {
            lemma_pixel_offset_in_bounds(x, y, c, width as int, height as int);
        }
        img
    }

    pub fn width(&self) -> (w: usize)
        ensures
            w == self.spec_width(),
    {
        self.width
    }

    pub fn height(&self) -> (h: usize)
        ensures
            h == self.spec_height(),
    {
        self.height
    }

    fn clamp(x: usize, low: usize, high: usize) -> (r: usize)
        requires
            x < low || high > 0,
        ensures
            r == clamp_coord(x as int, low as int, high as int),
            x < low ==> r == low,
            low <= x < high ==> r == x,
            low <= x && high <= x ==> r == high - 1,
    {
        if x < low {
            low
        } else if x < high {
            x
        } else {
            high - 1
        }
    }

    /// The pixel at column `x`, row `y`, with each coordinate clamped into the
    /// image, so that coordinates past an edge read the edge pixel.
    pub fn pixel_data(&self, x: usize, y: usize) -> (px: [u8; 3])
        requires
            self.spec_width() > 0,
            self.spec_height() > 0,
        ensures
            ({
                let cx = clamp_coord(x as int, 0, self.spec_width() as int);
                let cy = clamp_coord(y as int, 0, self.spec_height() as int);
                &&& 0 <= cx < self.spec_width()
                &&& 0 <= cy < self.spec_height()
                &&& cx == (if (x as int) < self.spec_width() { x as int } else { self.spec_width() - 1 })
                &&& cy == (if (y as int) < self.spec_height() { y as int } else { self.spec_height() - 1 })
                &&& px[0] == self.channel(cx, cy, 0)
                &&& px[1] == self.channel(cx, cy, 1)
                &&& px[2] == self.channel(cx, cy, 2)
            }),
    {
        proof {
            use_type_invariant(self);
        }
        let len = self.data.len();
        let cx = Self::clamp(x, 0, self.width);
        let cy = Self::clamp(y, 0, self.height);
        proof {
            lemma_pixel_offset_in_bounds(cx as int, cy as int, 2, self.width as int, self.height as int);
        }
        let base = 3 * (cy * self.width + cx);
        [self.data[base], self.data[base + 1], self.data[base + 2]]
    }
}

proof fn lemma_pixel_offset_in_bounds(x: int, y: int, c: int, width: int, height: int)
    requires
        0 <= x < width,
        0 <= y < height,
        0 <= c < 3,
    ensures
        0 <= 3 * (y * width + x) + c < 3 * width * height,
        3 * (y * width + x) + c <= 3 * (y * width + x) + 2,
{
    assert(0 <= y * width) by (nonlinear_arith)
        requires
            0 <= y,
            0 <= width,
    ;
    assert(y * width + x < width * height) by (nonlinear_arith)
        requires
            0 <= x < width,
            0 <= y < height,
    ;
    assert(3 * (y * width + x) + c < 3 * width * height) by (nonlinear_arith)
        requires
            y * width + x < width * height,
            0 <= c < 3,
    ;
}

} // verus!
