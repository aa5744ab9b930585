use vstd::prelude::*;
use crate::colour::{decimal, push_decimal, colour_line_text, push_colour_line};

verus! {

/// Why a camera could not be built from the settings it was given.
#[derive(Debug, PartialEq, Eq, Clone, Copy)]
pub enum CameraBuilderError {
    /// Neither width and height, nor an aspect ratio with one of them, was set.
    InsufficientImageDimensions,
}

/// Samples per pixel when the builder was given none.
pub const DEFAULT_PIXEL_SAMPLES: usize = 10;

/// Maximum bounce depth when the builder was given none.
pub const DEFAULT_MAX_DEPTH: usize = 10;

/// Which settings the image size is derived from. The builder prefers an
/// explicit width and height, then an aspect ratio with the width, then an
/// aspect ratio with the height.
#[derive(Debug, PartialEq, Eq, Clone, Copy)]
pub enum ImageDimensions {
    /// Width and height were both given; the aspect ratio is their quotient.
    WidthAndHeight { width: usize, height: usize },
    /// Width and aspect ratio were given.
    AspectAndWidth { width: usize },
    /// Height and aspect ratio were given; the width follows from them.
    AspectAndHeight { height: usize },
}

pub open spec fn spec_choose_image_dimensions(
    width: Option<usize>,
    height: Option<usize>,
    aspect_given: bool,
) -> Result<ImageDimensions, CameraBuilderError> {
    if height is Some && width is Some {
        Ok(ImageDimensions::WidthAndHeight { width: width->0, height: height->0 })
    } else if aspect_given && width is Some {
        Ok(ImageDimensions::AspectAndWidth { width: width->0 })
    } else if aspect_given && height is Some {
        Ok(ImageDimensions::AspectAndHeight { height: height->0 })
    } else {
        Err(CameraBuilderError::InsufficientImageDimensions)
    }
}

/// Decides which of the builder's settings fix the image size, or reports
/// that they are not enough to fix it.
pub fn choose_image_dimensions(
    width: Option<usize>,
    height: Option<usize>,
    aspect_given: bool,
) -> (r: Result<ImageDimensions, CameraBuilderError>)
    ensures
        r == spec_choose_image_dimensions(width, height, aspect_given),
{
    match (height, width) {
        (Some(h), Some(w)) => Ok(ImageDimensions::WidthAndHeight { width: w, height: h }),
        _ => {
            if aspect_given {
                match (width, height) {
                    (Some(w), _) => Ok(ImageDimensions::AspectAndWidth { width: w }),
                    (None, Some(h)) => Ok(ImageDimensions::AspectAndHeight { height: h }),
                    (None, None) => Err(CameraBuilderError::InsufficientImageDimensions),
                }
            } else {
                Err(CameraBuilderError::InsufficientImageDimensions)
            }
        },
    }
}

/// A builder can make a camera exactly when it knows both image sides, or
/// an aspect ratio and at least one side. Both sides, when given, fix the
/// size whether or not an aspect ratio was given; otherwise the aspect ratio
/// goes with the width when there is one, and with the height if not.
pub proof fn lemma_dimensions_suffice(width: Option<usize>, height: Option<usize>, aspect_given: bool)
    ensures
        (width matches Some(w) && height matches Some(h)) ==> spec_choose_image_dimensions(
            width,
            height,
            aspect_given,
        ) == Ok::<ImageDimensions, CameraBuilderError>(
            ImageDimensions::WidthAndHeight { width: width->0, height: height->0 },
        ),
        (aspect_given && height is None && width is Some) ==> spec_choose_image_dimensions(
            width,
            height,
            aspect_given,
        ) == Ok::<ImageDimensions, CameraBuilderError>(ImageDimensions::AspectAndWidth { width: width->0 }),
        (aspect_given && width is None && height is Some) ==> spec_choose_image_dimensions(
            width,
            height,
            aspect_given,
        ) == Ok::<ImageDimensions, CameraBuilderError>(ImageDimensions::AspectAndHeight { height: height->0 }),
        spec_choose_image_dimensions(width, height, aspect_given) is Ok <==> ((width is Some
            && height is Some) || (aspect_given && (width is Some || height is Some))),
{
}

/// Samples per pixel and maximum depth, falling back to the defaults where
/// the builder was given none.
pub fn sample_counts_or_default(samples_per_pixel: Option<usize>, max_depth: Option<usize>) -> (r: (
    usize,
    usize,
))
    ensures
        r.0 == (match samples_per_pixel {
            Some(s) => s,
            None => DEFAULT_PIXEL_SAMPLES,
        }),
        r.1 == (match max_depth {
            Some(d) => d,
            None => DEFAULT_MAX_DEPTH,
        }),
{
    let s = match samples_per_pixel {
        Some(s) => s,
        None => DEFAULT_PIXEL_SAMPLES,
    };
    let d = match max_depth {
        Some(d) => d,
        None => DEFAULT_MAX_DEPTH,
    };
    (s, d)
}

/// The integer settings of a camera builder: image size, samples per pixel
/// and bounce limit, each possibly unset.
#[derive(Debug, Clone, Copy, PartialEq, Eq, Structural)]
pub struct ImageSettings {
    pub image_width: Option<usize>,
    pub image_height: Option<usize>,
    pub samples_per_pixel: Option<usize>,
    pub max_depth: Option<usize>,
}

impl ImageSettings {
    /// Nothing set.
    pub fn new() -> (s: Self)
        ensures
            s.image_width is None,
            s.image_height is None,
            s.samples_per_pixel is None,
            s.max_depth is None,
    {
        ImageSettings { image_width: None, image_height: None, samples_per_pixel: None, max_depth: None }
    }

    pub fn with_width(self, width: usize) -> (s: Self)
        ensures
            s == (ImageSettings { image_width: Some(width), ..self }),
    {
        ImageSettings { image_width: Some(width), ..self }
    }

    pub fn with_height(self, height: usize) -> (s: Self)
        ensures
            s == (ImageSettings { image_height: Some(height), ..self }),
    {
        ImageSettings { image_height: Some(height), ..self }
    }

    pub fn with_samples_per_pixel(self, sample_count: usize) -> (s: Self)
        ensures
            s == (ImageSettings { samples_per_pixel: Some(sample_count), ..self }),
    {
        ImageSettings { samples_per_pixel: Some(sample_count), ..self }
    }

    pub fn with_max_depth(self, depth: usize) -> (s: Self)
        ensures
            s == (ImageSettings { max_depth: Some(depth), ..self }),
    {
        ImageSettings { max_depth: Some(depth), ..self }
    }

    /// Which settings fix the image size, given whether an aspect ratio was set.
    pub fn dimensions(&self, aspect_given: bool) -> (r: Result<ImageDimensions, CameraBuilderError>)
        ensures
            r == spec_choose_image_dimensions(self.image_width, self.image_height, aspect_given),
    {
        choose_image_dimensions(self.image_width, self.image_height, aspect_given)
    }

    /// Samples per pixel and bounce limit, defaults filled in.
    pub fn counts(&self) -> (r: (usize, usize))
        ensures
            r == (
                match self.samples_per_pixel {
                    Some(s) => s,
                    None => DEFAULT_PIXEL_SAMPLES,
                },
                match self.max_depth {
                    Some(d) => d,
                    None => DEFAULT_MAX_DEPTH,
                },
            ),
    {
        sample_counts_or_default(self.samples_per_pixel, self.max_depth)
    }
}

/// The image height a camera uses for a computed height: at least one row.
pub fn clamp_image_height(computed: usize) -> (h: usize)
    ensures
        h >= 1,
        computed >= 1 ==> h == computed,
        computed == 0 ==> h == 1,
{
    if computed < 1 {
        1
    } else {
        computed
    }
}

/// Header of a plain-text PPM image with 8-bit samples: magic number, the
/// image size and the sample range.
pub open spec fn ppm_header_text(width: nat, height: nat) -> Seq<u8> {
    seq![80u8, 51u8, 10u8] + decimal(width) + seq![32u8] + decimal(height) + seq![
        10u8,
        50u8,
        53u8,
        54u8,
        10u8,
    ]
}

/// The pixel lines of a plain-text PPM image, one line per pixel in order.
pub open spec fn ppm_body_text(pixels: Seq<[u8; 3]>) -> Seq<u8>
    decreases pixels.len(),
{
    if pixels.len() == 0 {
        Seq::empty()
    } else {
        ppm_body_text(pixels.drop_last()) + colour_line_text(
            pixels.last()[0],
            pixels.last()[1],
            pixels.last()[2],
        )
    }
}

/// The whole text of a rendered image in plain PPM form: the header
/// `P3`, `width height`, `256`, then one line per quantised pixel.
pub fn encode_ppm(width: usize, height: usize, pixels: &Vec<[u8; 3]>) -> (out: Vec<u8>)
    ensures
        out@ == ppm_header_text(width as nat, height as nat) + ppm_body_text(pixels@),
{
    let mut out: Vec<u8> = Vec::new();
    out.push(80u8);
    out.push(51u8);
    out.push(10u8);
    push_decimal(&mut out, width);
    out.push(32u8);
    push_decimal(&mut out, height);
    out.push(10u8);
    out.push(50u8);
    out.push(53u8);
    out.push(54u8);
    out.push(10u8);
    let ghost header = out@;
    assert(header =~= ppm_header_text(width as nat, height as nat));
    let n = pixels.len();
    let mut i: usize = 0;
    while i < n
        invariant
            n == pixels@.len(),
            0 <= i <= n,
            header == ppm_header_text(width as nat, height as nat),
            out@ == header + ppm_body_text(pixels@.take(i as int)),
        decreases n - i,
    {
        let p = pixels[i];
        push_colour_line(&mut out, p[0], p[1], p[2]);
        proof {
            assert(pixels@.take(i + 1).drop_last() =~= pixels@.take(i as int));
            assert(pixels@.take(i + 1).last() == p);
        }
        i = i + 1;
    }
    assert(pixels@.take(n as int) =~= pixels@);
    out
}

} // verus!
