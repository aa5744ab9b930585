use vstd::prelude::*;

verus! {

/// The linear-space value of an sRGB-ish channel byte: the byte is taken into
/// `[0, 1]`, squared, and scaled back to `[0, 255]`, rounding down.
pub open spec fn linear_channel(c: int) -> int {
    (c * c) / 255
}

/// Converts one gamma-encoded channel byte into linear space
/// (`floor(c * c / 255)`, i.e. `c / 255` squared and rescaled).
pub fn gamma_to_linear(c: u8) -> (r: u8)
    ensures
        r as int == linear_channel(c as int),
        (r as int) * 255 <= (c as int) * (c as int),
        (c as int) * (c as int) < (r as int + 1) * 255,
{
    let wide: u32 = c as u32;
    assert(wide * wide <= 255 * 255) by (nonlinear_arith)
        requires
            wide <= 255,
    ;
    let sq: u32 = wide * wide;
    assert(sq / 255 <= 255) by (nonlinear_arith)
        requires
            sq <= 255 * 255,
    ;
    (sq / 255) as u8
}

/// Gamma decoding never brightens a channel, and it keeps black and white
/// where they are.
pub proof fn lemma_linear_channel_bounds(c: int)
    requires
        0 <= c <= 255,
    ensures
        0 <= linear_channel(c) <= c,
        linear_channel(0) == 0,
        linear_channel(255) == 255,
{
    assert(c * c <= 255 * c) by (nonlinear_arith)
        requires
            0 <= c <= 255,
    ;
    assert((c * c) / 255 <= (255 * c) / 255) by (nonlinear_arith)
        requires
            0 <= c * c <= 255 * c,
    ;
    assert((255 * c) / 255 == c) by (nonlinear_arith);
    assert(0 <= c * c) by (nonlinear_arith);
}

/// Gamma decoding squares the channel taken into `[0, 1]`: the linear value
/// is the largest whole number `r` with `r / 255 <= (c / 255)^2`.
pub proof fn lemma_linear_channel_squares(c: int)
    requires
        0 <= c <= 255,
    ensures
        linear_channel(c) * 255 <= c * c < (linear_channel(c) + 1) * 255,
{
    assert(0 <= c * c) by (nonlinear_arith);
    assert(((c * c) / 255) * 255 <= c * c < ((c * c) / 255 + 1) * 255) by (nonlinear_arith)
        requires
            0 <= c * c,
    ;
}

/// Gamma decoding preserves the order of channel values.
pub proof fn lemma_linear_channel_monotone(a: int, b: int)
    requires
        0 <= a <= b <= 255,
    ensures
        linear_channel(a) <= linear_channel(b),
{
    assert(a * a <= b * b) by (nonlinear_arith)
        requires
            0 <= a <= b,
    ;
    assert((a * a) / 255 <= (b * b) / 255) by (nonlinear_arith)
        requires
            0 <= a * a <= b * b,
    ;
}

/// Converts every byte of an interleaved channel buffer into linear space.
pub fn linearize_channels(data: &mut Vec<u8>)
    ensures
        final(data)@.len() == old(data)@.len(),
        forall|k: int|
            0 <= k < old(data)@.len() ==> #[trigger] final(data)@[k] as int == linear_channel(
                old(data)@[k] as int,
            ),
{
    let n = data.len();
    let mut i: usize = 0;
    while i < n
        invariant
            n == old(data)@.len(),
            data@.len() == n,
            0 <= i <= n,
            forall|k: int| 0 <= k < i ==> #[trigger] data@[k] as int == linear_channel(old(data)@[k] as int),
            forall|k: int| i <= k < n ==> #[trigger] data@[k] == old(data)@[k],
        decreases n - i,
    {
        let v = gamma_to_linear(data[i]);
        data.set(i, v);
        i = i + 1;
    }
}


/// ASCII decimal digits of `n`, most significant first, with no leading zeros.
pub open spec fn decimal(n: nat) -> Seq<u8>
    decreases n,
{
    if n < 10 {
        seq![(48 + n) as u8]
    } else {
        decimal(n / 10).push((48 + n % 10) as u8)
    }
}

/// Appends the decimal text of `n` to `out`.
pub fn push_decimal(out: &mut Vec<u8>, n: usize)
    ensures
        final(out)@ == old(out)@ + decimal(n as nat),
    decreases n,
{
    if n >= 10 {
        push_decimal(out, n / 10);
    }
    let digit: u8 = (n % 10) as u8;
    out.push(48u8 + digit);
    proof {
        if n < 10 {
            assert(decimal(n as nat) == seq![(48 + n) as u8]);
        }
    }
}

/// The text line that one quantised pixel occupies in a plain PPM file:
/// the three channel values in decimal, separated by spaces, then a newline.
pub open spec fn colour_line_text(r: u8, g: u8, b: u8) -> Seq<u8> {
    decimal(r as nat) + seq![32u8] + decimal(g as nat) + seq![32u8] + decimal(b as nat) + seq![10u8]
}

/// Appends the PPM text line of one quantised pixel to `out`.
pub fn push_colour_line(out: &mut Vec<u8>, r: u8, g: u8, b: u8)
    ensures
        final(out)@ == old(out)@ + colour_line_text(r, g, b),
{
    push_decimal(out, r as usize);
    out.push(32u8);
    push_decimal(out, g as usize);
    out.push(32u8);
    push_decimal(out, b as usize);
    out.push(10u8);
    assert(final(out)@ =~= old(out)@ + colour_line_text(r, g, b));
}

/// The PPM text line of one quantised pixel, as written by `write_colour`.
pub fn colour_line(r: u8, g: u8, b: u8) -> (line: Vec<u8>)
    ensures
        line@ == colour_line_text(r, g, b),
{
    let mut line: Vec<u8> = Vec::new();
    push_colour_line(&mut line, r, g, b);
    assert(line@ =~= colour_line_text(r, g, b));
    line
}

} // verus!
