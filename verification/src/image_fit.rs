//! Fitting a decoded image into the largest texture that the GPU accepts:
//! an image that is too wide or too tall is scaled down, keeping its aspect
//! ratio, so that its longer side is exactly the largest texture size.
use vstd::prelude::*;
use vstd::arithmetic::div_mod::lemma_fundamental_div_mod_converse;
use vstd::arithmetic::power2::{
    lemma2_to64, lemma2_to64_rest, lemma_pow2_adds, lemma_pow2_pos, lemma_pow2_unfold, pow2,
};

verus! {

/// The resampling filters of `image::imageops::FilterType`.
#[derive(PartialEq, Eq, Structural, Clone, Copy, Debug)]
pub enum FilterType {
    Nearest,
    Triangle,
    CatmullRom,
    Gaussian,
    Lanczos3,
}

/// An image of 8-bit RGBA pixels, row by row.
pub struct RgbaImage {
    pub width: u32,
    pub height: u32,
    /// Four bytes per pixel: red, green, blue, alpha.
    pub pixels: Vec<u8>,
}

impl RgbaImage {
    /// The pixel buffer holds exactly four bytes for each pixel.
    pub open spec fn wf(&self) -> bool {
        self.pixels@.len() == self.width * self.height * 4
    }
}

/// The pixels that `image::imageops::resize` computes when it resamples an
/// RGBA image of `width` by `height` with `pixels` to `new_width` by
/// `new_height` with `filter`.
pub uninterp spec fn resized_pixels(
    width: u32,
    height: u32,
    pixels: Seq<u8>,
    new_width: u32,
    new_height: u32,
    filter: FilterType,
) -> Seq<u8>;

/// Calls `image::imageops::resize` on the image (turned into an
/// `image::RgbaImage`) and hands back the pixels of the result. The result
/// has the new size, four bytes per pixel (the function builds its output
/// with `ImageBuffer::new(new_width, new_height)`); its contents are named,
/// not stated. The buffers that it allocates (the output, and an
/// intermediate of 16 bytes per pixel, `width` by `new_height`) must fit in
/// memory.
#[verifier::external_body]
fn resize(image: &RgbaImage, new_width: u32, new_height: u32, filter: FilterType) -> (pixels: Vec<
    u8,
>)
    requires
        image.wf(),
        new_width * new_height * 4 <= isize::MAX,
        image.width * new_height * 16 <= isize::MAX,
    ensures
        pixels@ == resized_pixels(
            image.width,
            image.height,
            image.pixels@,
            new_width,
            new_height,
            filter,
        ),
        pixels@.len() == new_width * new_height * 4,
{
    let filter = match filter {
        FilterType::Nearest => image::imageops::FilterType::Nearest,
        FilterType::Triangle => image::imageops::FilterType::Triangle,
        FilterType::CatmullRom => image::imageops::FilterType::CatmullRom,
        FilterType::Gaussian => image::imageops::FilterType::Gaussian,
        FilterType::Lanczos3 => image::imageops::FilterType::Lanczos3,
    };
    let source = image::RgbaImage::from_raw(image.width, image.height, image.pixels.clone()).unwrap();
    image::imageops::resize(&source, new_width, new_height, filter).into_raw()
}

/// `numerator / denominator` rounded to the nearest whole number, halves
/// rounded up.
pub open spec fn rounded_ratio(numerator: int, denominator: int) -> int {
    (2 * numerator + denominator) / (2 * denominator)
}

/// The nearest whole number to `num / den`, halves rounded to the even one
/// (the rounding of IEEE 754 arithmetic).
pub open spec fn quotient_to_even(num: nat, den: nat) -> nat {
    let q = num / den;
    let r = num % den;
    if 2 * r > den || (2 * r == den && q % 2 == 1) {
        q + 1
    } else {
        q
    }
}

/// Whether `num / den` times `2^exp` lies in `[2^52, 2^53)`: scaled by
/// `2^exp`, the value has the 53 significant bits of an `f64`.
pub open spec fn is_f64_exponent(num: nat, den: nat, exp: nat) -> bool {
    pow2(52) * den <= num * pow2(exp) < pow2(53) * den
}

/// The `f64` nearest to the positive value `num / den` (for values below
/// `2^53` and far above the subnormal range), as a significand `sig` and an
/// exponent `exp`: the value is `sig / 2^exp`.
pub open spec fn f64_nearest(num: nat, den: nat) -> (nat, nat) {
    let exp = choose|exp: nat| is_f64_exponent(num, den, exp);
    (quotient_to_even(num * pow2(exp), den), exp)
}

/// `f64::round(short as f64 / long as f64 * max as f64)`: the quotient
/// rounded to an `f64`, the product with `max` rounded to an `f64`, and that
/// rounded to the nearest whole number, halves away from zero.
pub open spec fn float_scaled_side(short: nat, long: nat, max: nat) -> nat {
    if short == 0 || max == 0 {
        0
    } else {
        let (ratio_sig, ratio_exp) = f64_nearest(short, long);
        let (product_sig, product_exp) = f64_nearest(ratio_sig * max, pow2(ratio_exp));
        rounded_ratio(product_sig as int, pow2(product_exp) as int) as nat
    }
}

/// Whether an image of this size fits into textures of at most `max_size`
/// on each side.
pub open spec fn fits(width: u32, height: u32, max_size: u32) -> bool {
    width <= max_size && height <= max_size
}

/// The size that an image that does not fit is scaled to: its longer side
/// (the width, where both are equal) becomes `max_size`, and the other side
/// keeps the aspect ratio, computed in `f64` and rounded to a whole pixel
/// (see [`float_scaled_side`]).
pub open spec fn spec_scaled_size(width: u32, height: u32, max_size: u32) -> (u32, u32) {
    if width >= height {
        (max_size, float_scaled_side(height as nat, width as nat, max_size as nat) as u32)
    } else {
        (float_scaled_side(width as nat, height as nat, max_size as nat) as u32, max_size)
    }
}

/// The size that an image that does not fit is scaled to (see
/// [`spec_scaled_size`]). It keeps the aspect ratio up to rounding: the
/// short side is less than one pixel away from the short side times
/// `max_size` over the long side.
pub fn scaled_size(width: u32, height: u32, max_size: u32) -> (size: (u32, u32))
    requires
        !fits(width, height, max_size),
    ensures
        size == spec_scaled_size(width, height, max_size),
        size.0 <= max_size,
        size.1 <= max_size,
        width >= height ==> size.1 * width < height * max_size + width && height * max_size
            < size.1 * width + width,
        width < height ==> size.0 * height < width * max_size + height && width * max_size
            < size.0 * height + height,
{
    if width >= height {
        (max_size, float_scaled(height, width, max_size))
    } else {
        (float_scaled(width, height, max_size), max_size)
    }
}

/// 2^52 and 2^53, the bounds of an `f64` significand.
const SIG_LOW: u128 = 0x10_0000_0000_0000;
const SIG_HIGH: u128 = 0x20_0000_0000_0000;

/// 2^120, a bound on the integers of the computation.
const WIDE: u128 = 0x0100_0000_0000_0000_0000_0000_0000_0000;

/// `f64::round(short as f64 / long as f64 * max_size as f64) as u32`,
/// computed exactly with integers (see [`float_scaled_side`]); it is at
/// most `max_size` as `short <= long`.
fn float_scaled(short: u32, long: u32, max_size: u32) -> (side: u32)
    requires
        short <= long,
        long > 0,
    ensures
        side == float_scaled_side(short as nat, long as nat, max_size as nat),
        side <= max_size,
        side * long < short * max_size + long,
        short * max_size < side * long + long,
{
    if short == 0 || max_size == 0 {
        return 0;
    }
    let (sig, scale, exp) = ratio_to_f64(short as u128, long as u128);
    let max = max_size as u128;
    assert(sig * max <= scale * max) by (nonlinear_arith)
        requires
            sig <= scale,
    ;
    assert(scale * max < SIG_HIGH * scale) by (nonlinear_arith)
        requires
            max < SIG_HIGH,
            scale > 0,
    ;
    assert(scale * max <= SIG_HIGH * 0x1_0000_0000 * 0x1_0000_0000) by (nonlinear_arith)
        requires
            max < 0x1_0000_0000,
            scale < SIG_HIGH * 0x1_0000_0000,
    ;
    assert(sig <= sig * max) by (nonlinear_arith)
        requires
            max >= 1,
    ;
    let x = sig * max;
    let (p, p_scale, p_exp) = product_to_f64(x, scale, exp, max);
    proof {
        lemma_pow2_pos(p_exp@);
    }
    assert(2 * p + p_scale <= 2 * max * p_scale + p_scale) by (nonlinear_arith)
        requires
            p <= max * p_scale,
    ;
    assert(max * p_scale <= 0x1_0000_0000 * (SIG_HIGH * 0x1_0000_0000)) by (nonlinear_arith)
        requires
            max < 0x1_0000_0000,
            p_scale <= scale,
            scale < SIG_HIGH * 0x1_0000_0000,
    ;
    let side = (2 * p + p_scale) / (2 * p_scale);
    assert(side <= max) by (nonlinear_arith)
        requires
            side == (2 * p + p_scale) / (2 * p_scale),
            p <= max * p_scale,
            p_scale > 0,
    ;
    proof {
        assert(p_scale >= 3) by (nonlinear_arith)
            requires
                SIG_LOW * scale <= x * p_scale,
                x <= scale * max,
                max < 0x1_0000_0000,
                scale > 0,
        ;
        assert(2 * (side * p_scale) <= 2 * p + p_scale && 2 * p + p_scale < 2 * (side * p_scale) + 2
            * p_scale) by (nonlinear_arith)
            requires
                side == (2 * p + p_scale) / (2 * p_scale),
                p_scale > 0,
        ;
        lemma_scaled_side_error(
            short as int,
            long as int,
            max as int,
            sig as int,
            scale as int,
            x as int,
            p as int,
            p_scale as int,
            side as int,
        );
    }
    side as u32
}

/// The three roundings of the computation (of the quotient, of the product,
/// and to a whole number) leave the result within one of the exact
/// `short * max / long`.
proof fn lemma_scaled_side_error(
    short: int,
    long: int,
    max: int,
    sig: int,
    scale: int,
    x: int,
    p: int,
    p_scale: int,
    side: int,
)
    requires
        long > 0,
        0 <= max < 0x1_0000_0000,
        scale >= SIG_LOW,
        p_scale >= 3,
        2 * (sig * long) <= 2 * (short * scale) + long,
        2 * (short * scale) <= 2 * (sig * long) + long,
        x == sig * max,
        2 * (p * scale) <= 2 * (x * p_scale) + scale,
        2 * (x * p_scale) <= 2 * (p * scale) + scale,
        2 * (side * p_scale) <= 2 * p + p_scale,
        2 * p + p_scale < 2 * (side * p_scale) + 2 * p_scale,
    ensures
        side * long < short * max + long,
        short * max < side * long + long,
{
    let u = side * p_scale;
    let c = p_scale * scale;
    // the last rounding, scaled by `scale`
    assert(2 * (u * scale) <= 2 * (p * scale) + c && 2 * (p * scale) + c < 2 * (u * scale) + 2 * c)
        by (nonlinear_arith)
        requires
            2 * u <= 2 * p + p_scale,
            2 * p + p_scale < 2 * u + 2 * p_scale,
            scale > 0,
            c == p_scale * scale,
    ;
    // with the rounding of the product
    let g = scale + c;
    assert(2 * (x * p_scale) - g < 2 * (u * scale) <= 2 * (x * p_scale) + g);
    // scaled by `long`
    assert(2 * ((x * p_scale) * long) - g * long < 2 * ((u * scale) * long) <= 2 * ((x * p_scale)
        * long) + g * long) by (nonlinear_arith)
        requires
            2 * (x * p_scale) - g < 2 * (u * scale) <= 2 * (x * p_scale) + g,
            long > 0,
    ;
    // with the rounding of the quotient, scaled by `max * p_scale`
    let m = max * p_scale;
    assert(2 * ((sig * long) * m) <= 2 * ((short * scale) * m) + long * m && 2 * ((short * scale)
        * m) <= 2 * ((sig * long) * m) + long * m) by (nonlinear_arith)
        requires
            2 * (sig * long) <= 2 * (short * scale) + long,
            2 * (short * scale) <= 2 * (sig * long) + long,
            m >= 0,
    ;
    assert((x * p_scale) * long == (sig * long) * m) by (nonlinear_arith)
        requires
            x == sig * max,
            m == max * p_scale,
    ;
    // the error terms together stay below one whole `long * c`
    assert(m + scale < c) by (nonlinear_arith)
        requires
            m == max * p_scale,
            c == p_scale * scale,
            p_scale >= 3,
            max < 0x1_0000_0000,
            scale >= SIG_LOW,
    ;
    assert(long * m + g * long < 2 * (long * c)) by (nonlinear_arith)
        requires
            m + scale < c,
            g == scale + c,
            long > 0,
    ;
    assert((u * scale) * long == (side * long) * c && (short * scale) * m == (short * max) * c)
        by (nonlinear_arith)
        requires
            u == side * p_scale,
            m == max * p_scale,
            c == p_scale * scale,
    ;
    let a = side * long;
    let b = short * max;
    assert(2 * (a * c) < 2 * (b * c) + 2 * (long * c));
    assert(2 * (b * c) < 2 * (a * c) + 2 * (long * c));
    assert(a < b + long && b < a + long) by (nonlinear_arith)
        requires
            a * c < b * c + long * c,
            b * c < a * c + long * c,
            c > 0,
    ;
}

/// `quotient_to_even(num, den)`.
fn quotient_to_even_exec(num: u128, den: u128) -> (q: u128)
    requires
        0 < den < WIDE,
        num < WIDE,
    ensures
        q == quotient_to_even(num as nat, den as nat),
{
    let q = num / den;
    assert(q <= num) by (nonlinear_arith)
        requires
            q == num / den,
            den > 0,
    ;
    let r = num % den;
    if 2 * r > den || (2 * r == den && q % 2 == 1) {
        q + 1
    } else {
        q
    }
}

/// The `f64` nearest to `short / long`, with its scale `2^exp`.
fn ratio_to_f64(short: u128, long: u128) -> (result: (u128, u128, Ghost<nat>))
    requires
        0 < short <= long <= u32::MAX,
    ensures
        result.1 == pow2(result.2@),
        (result.0 as nat, result.2@) == f64_nearest(short as nat, long as nat),
        SIG_LOW <= result.0 <= result.1,
        SIG_LOW <= result.1 < SIG_HIGH * 0x1_0000_0000,
        2 * (result.0 * long) <= 2 * (short * result.1) + long,
        2 * (short * result.1) <= 2 * (result.0 * long) + long,
{
    proof {
        lemma2_to64();
        lemma2_to64_rest();
    }
    let mut scale: u128 = 1;
    let ghost mut exp: nat = 0;
    while short * scale < SIG_LOW * long
        invariant
            0 < short <= long <= u32::MAX,
            scale == pow2(exp),
            scale >= 1,
            short * scale < SIG_HIGH * long,
        decreases SIG_HIGH * long - short * scale,
    {
        assert(short * (2 * scale) == 2 * (short * scale) && short * scale >= scale)
            by (nonlinear_arith)
            requires
                short >= 1,
        ;
        proof {
            lemma_pow2_unfold(exp + 1);
        }
        let ghost old_product = short * scale;
        scale = 2 * scale;
        assert(short * scale == 2 * old_product) by (nonlinear_arith)
            requires
                old_product == short * (scale / 2),
                scale % 2 == 0,
        ;
        proof {
            exp = exp + 1;
        }
    }
    assert(scale <= short * scale) by (nonlinear_arith)
        requires
            short >= 1,
    ;
    let num = short * scale;
    proof {
        assert(is_f64_exponent(short as nat, long as nat, exp));
        let chosen = choose|e: nat| is_f64_exponent(short as nat, long as nat, e);
        lemma_f64_exponent_unique(short as nat, long as nat, chosen, exp);
        assert(num <= scale * long) by (nonlinear_arith)
            requires
                num == short * scale,
                short <= long,
        ;
        lemma_quotient_to_even_bounds(num as nat, long as nat, SIG_LOW as nat, scale as nat);
        lemma_quotient_to_even_nearest(num as nat, long as nat);
        assert(short * scale <= long * scale) by (nonlinear_arith)
            requires
                short <= long,
                scale >= 1,
        ;
        assert(SIG_LOW <= scale) by (nonlinear_arith)
            requires
                SIG_LOW * long <= long * scale,
                long > 0,
        ;
    }
    let sig = quotient_to_even_exec(num, long);
    (sig, scale, Ghost(exp))
}

/// The `f64` nearest to `x / scale`, where `scale == 2^exp`, with its scale
/// `2^p_exp`; `x` is a significand times `max`, so the value is at most
/// `max`.
fn product_to_f64(x: u128, scale: u128, exp: Ghost<nat>, max: u128) -> (result: (
    u128,
    u128,
    Ghost<nat>,
))
    requires
        scale == pow2(exp@),
        scale < SIG_HIGH * 0x1_0000_0000,
        SIG_LOW <= x < SIG_HIGH * scale,
        x <= scale * max,
        max < 0x1_0000_0000,
    ensures
        result.1 == pow2(result.2@),
        (result.0 as nat, result.2@) == f64_nearest(x as nat, scale as nat),
        result.0 <= max * result.1,
        result.1 <= scale,
        SIG_LOW * scale <= x * result.1,
        2 * (result.0 * scale) <= 2 * (x * result.1) + scale,
        2 * (x * result.1) <= 2 * (result.0 * scale) + scale,
{
    proof {
        lemma2_to64();
        lemma2_to64_rest();
    }
    assert(x <= SIG_HIGH * 0x1_0000_0000 * 0x1_0000_0000) by (nonlinear_arith)
        requires
            x <= scale * max,
            max < 0x1_0000_0000,
            scale < SIG_HIGH * 0x1_0000_0000,
    ;
    let mut rest: u128 = scale;
    let mut p_scale: u128 = 1;
    let ghost mut p_exp: nat = 0;
    while x / SIG_LOW < rest
        invariant
            x <= SIG_HIGH * 0x1_0000_0000 * 0x1_0000_0000,
            scale == pow2(exp@),
            scale < SIG_HIGH * 0x1_0000_0000,
            SIG_LOW <= x < SIG_HIGH * rest,
            p_exp <= exp@,
            rest == pow2((exp@ - p_exp) as nat),
            p_scale == pow2(p_exp),
            rest * p_scale == scale,
            1 <= rest <= scale,
            1 <= p_scale <= scale,
        decreases rest,
    {
        assert(x < SIG_LOW * rest) by (nonlinear_arith)
            requires
                x / SIG_LOW < rest,
        ;
        assert(rest > 1) by (nonlinear_arith)
            requires
                SIG_LOW <= x < SIG_LOW * rest,
        ;
        assert(2 * p_scale <= scale) by (nonlinear_arith)
            requires
                rest * p_scale == scale,
                rest > 1,
                p_scale >= 1,
        ;
        proof {
            lemma2_to64();
            if p_exp == exp@ {
                assert(rest == 1);
            }
            lemma_pow2_unfold((exp@ - p_exp) as nat);
            lemma_pow2_unfold(p_exp + 1);
        }
        assert((rest / 2) * (2 * p_scale) == rest * p_scale) by (nonlinear_arith)
            requires
                rest % 2 == 0,
        ;
        rest = rest / 2;
        p_scale = 2 * p_scale;
        proof {
            p_exp = p_exp + 1;
        }
    }
    assert(SIG_LOW * rest <= x) by (nonlinear_arith)
        requires
            x / SIG_LOW >= rest,
    ;
    proof {
        lemma_pow2_pos(p_exp);
        lemma_pow2_pos((exp@ - p_exp) as nat);
        assert(is_f64_exponent(x as nat, scale as nat, p_exp)) by {
            assert(SIG_LOW * scale <= x * p_scale < SIG_HIGH * scale) by (nonlinear_arith)
                requires
                    SIG_LOW * rest <= x < SIG_HIGH * rest,
                    rest * p_scale == scale,
                    p_scale > 0,
            ;
        }
        let chosen = choose|e: nat| is_f64_exponent(x as nat, scale as nat, e);
        lemma_f64_exponent_unique(x as nat, scale as nat, chosen, p_exp);
        lemma_quotient_to_even_scaled(x as nat, rest as nat, p_scale as nat);
        assert(x <= rest * (max * p_scale)) by (nonlinear_arith)
            requires
                x <= scale * max,
                rest * p_scale == scale,
        ;
        lemma_quotient_to_even_bounds(x as nat, rest as nat, 0, (max * p_scale) as nat);
        let p = quotient_to_even(x as nat, rest as nat);
        lemma_quotient_to_even_nearest(x as nat, rest as nat);
        assert(2 * (p * scale) <= 2 * (x * p_scale) + scale && 2 * (x * p_scale) <= 2 * (p
            * scale) + scale) by (nonlinear_arith)
            requires
                2 * (p * rest) <= 2 * x + rest,
                2 * x <= 2 * (p * rest) + rest,
                rest * p_scale == scale,
                p_scale > 0,
        ;
        assert(p_scale <= scale) by (nonlinear_arith)
            requires
                rest * p_scale == scale,
                rest >= 1,
        ;
    }
    let p = quotient_to_even_exec(x, rest);
    (p, p_scale, Ghost(p_exp))
}

/// An exponent that scales a value into `[2^52, 2^53)` is unique.
proof fn lemma_f64_exponent_unique(num: nat, den: nat, a: nat, b: nat)
    requires
        den > 0,
        is_f64_exponent(num, den, a),
        is_f64_exponent(num, den, b),
    ensures
        a == b,
{
    lemma_pow2_unfold(53);
    if a < b {
        lemma_f64_exponent_order(num, den, a, b);
    } else if b < a {
        lemma_f64_exponent_order(num, den, b, a);
    }
}

/// Once an exponent scales a value into `[2^52, 2^53)`, every larger one
/// scales it beyond.
proof fn lemma_f64_exponent_order(num: nat, den: nat, a: nat, b: nat)
    requires
        den > 0,
        a < b,
        pow2(53) == 2 * pow2(52),
        is_f64_exponent(num, den, a),
    ensures
        !is_f64_exponent(num, den, b),
{
    lemma_pow2_adds(a + 1, (b - a - 1) as nat);
    lemma_pow2_unfold(a + 1);
    lemma_pow2_pos((b - a - 1) as nat);
    let big = pow2(b);
    let small = pow2(a);
    let step = pow2((b - a - 1) as nat);
    assert(a + 1 + (b - a - 1) as nat == b);
    assert(big == pow2(a + 1) * step);
    assert(num * big >= pow2(53) * den) by (nonlinear_arith)
        requires
            big == 2 * small * step,
            step >= 1,
            pow2(52) * den <= num * small,
            pow2(53) == 2 * pow2(52),
    ;
}

/// Rounding to the nearest whole number stays within whole bounds on the
/// exact value: `lo <= num / den <= hi` gives `lo <= quotient_to_even(num,
/// den) <= hi`.
proof fn lemma_quotient_to_even_bounds(num: nat, den: nat, lo: nat, hi: nat)
    requires
        den > 0,
        lo * den <= num <= hi * den,
    ensures
        lo <= quotient_to_even(num, den) <= hi,
{
    let q = num / den;
    let r = num % den;
    assert(num == q * den + r && 0 <= r < den) by (nonlinear_arith)
        requires
            den > 0,
            q == num / den,
            r == num % den,
    ;
    assert(lo <= q <= hi) by (nonlinear_arith)
        requires
            lo * den <= num <= hi * den,
            num == q * den + r,
            0 <= r < den,
    ;
    if q == hi {
        assert(r == 0) by (nonlinear_arith)
            requires
                num <= hi * den,
                num == q * den + r,
                q == hi,
                r >= 0,
        ;
    }
}

/// The rounded quotient is within half of the exact one:
/// `|q * den - num| <= den / 2`.
proof fn lemma_quotient_to_even_nearest(num: nat, den: nat)
    requires
        den > 0,
    ensures
        2 * (quotient_to_even(num, den) * den) <= 2 * num + den,
        2 * num <= 2 * (quotient_to_even(num, den) * den) + den,
{
    let q = num / den;
    let r = num % den;
    assert(num == q * den + r && 0 <= r < den) by (nonlinear_arith)
        requires
            den > 0,
            q == num / den,
            r == num % den,
    ;
    assert((q + 1) * den == q * den + den) by (nonlinear_arith);
}

/// Scaling both sides of a quotient by the same factor does not change its
/// rounding.
proof fn lemma_quotient_to_even_scaled(num: nat, den: nat, factor: nat)
    requires
        den > 0,
        factor > 0,
    ensures
        quotient_to_even(num * factor, den * factor) == quotient_to_even(num, den),
{
    let q = num / den;
    let r = num % den;
    assert(num == q * den + r && 0 <= r < den) by (nonlinear_arith)
        requires
            den > 0,
            q == num / den,
            r == num % den,
    ;
    assert(num * factor == q * (den * factor) + r * factor && 0 <= r * factor < den * factor)
        by (nonlinear_arith)
        requires
            num == q * den + r,
            0 <= r < den,
            factor > 0,
    ;
    lemma_fundamental_div_mod_converse(
        (num * factor) as int,
        (den * factor) as int,
        q as int,
        (r * factor) as int,
    );
    assert((2 * (r * factor) > den * factor) == (2 * r > den)) by (nonlinear_arith)
        requires
            factor > 0,
    ;
    assert((2 * (r * factor) == den * factor) == (2 * r == den)) by (nonlinear_arith)
        requires
            factor > 0,
    ;
}

/// An image fitted into the texture size limit, with the size it had before.
pub struct FittedImage {
    pub image: RgbaImage,
    pub intrinsic_width: u32,
    pub intrinsic_height: u32,
}

impl FittedImage {
    /// Whether the image was scaled down.
    pub fn is_downscaled(&self) -> (downscaled: bool)
        ensures
            downscaled == (self.image.width != self.intrinsic_width || self.image.height
                != self.intrinsic_height),
    {
        self.image.width != self.intrinsic_width || self.image.height != self.intrinsic_height
    }
}

/// Whether resampling an image of this size down to the texture size limit
/// can allocate its buffers: the output, and an intermediate of 16 bytes per
/// pixel, `width` by the new height (nothing is resampled where the image
/// fits).
pub open spec fn resample_fits_in_memory(width: u32, height: u32, max_size: u32) -> bool {
    !fits(width, height, max_size) ==> {
        let (w, h) = spec_scaled_size(width, height, max_size);
        &&& w * h * 4 <= isize::MAX
        &&& width * h * 16 <= isize::MAX
    }
}

/// What fitting `image` into textures of at most `max_size` on each side
/// gives: an image that fits is kept as it is; one that does not is
/// resampled with the Catmull-Rom filter to [`spec_scaled_size`]; the size
/// it had before comes back beside it.
pub open spec fn fit_outcome(image: RgbaImage, max_size: u32, fitted: FittedImage) -> bool {
    &&& fitted.intrinsic_width == image.width
    &&& fitted.intrinsic_height == image.height
    &&& fitted.image.wf()
    &&& fitted.image.width <= max_size
    &&& fitted.image.height <= max_size
    &&& fits(image.width, image.height, max_size) ==> fitted.image == image
    &&& !fits(image.width, image.height, max_size) ==> {
        &&& (fitted.image.width, fitted.image.height) == spec_scaled_size(
            image.width,
            image.height,
            max_size,
        )
        &&& fitted.image.pixels@ == resized_pixels(
            image.width,
            image.height,
            image.pixels@,
            fitted.image.width,
            fitted.image.height,
            FilterType::CatmullRom,
        )
    }
}

/// Fits an image into textures of at most `max_size` on each side (see
/// [`fit_outcome`]).
pub fn fit_to_max_size(image: RgbaImage, max_size: u32) -> (fitted: FittedImage)
    requires
        image.wf(),
        resample_fits_in_memory(image.width, image.height, max_size),
    ensures
        fit_outcome(image, max_size, fitted),
        fits(image.width, image.height, max_size) ==> fitted.image == image,
        !fits(image.width, image.height, max_size) ==> fitted.image.pixels@ == resized_pixels(image.width, image.height, image.pixels@, fitted.image.width, fitted.image.height, FilterType::CatmullRom),
{
    let width = image.width;
    let height = image.height;
    if width <= max_size && height <= max_size {
        FittedImage { image, intrinsic_width: width, intrinsic_height: height }
    } else {
        let (new_width, new_height) = scaled_size(width, height, max_size);
        let pixels = resize(&image, new_width, new_height, FilterType::CatmullRom);
        FittedImage {
            image: RgbaImage { width: new_width, height: new_height, pixels },
            intrinsic_width: width,
            intrinsic_height: height,
        }
    }
}

/// Fitting keeps an image that fits as it is, and resamples one that does
/// not with the Catmull-Rom filter, to a size within the limit whose longer
/// side is the limit, keeping the original size beside it.
pub proof fn lemma_fitting_resamples_with_catmull_rom(image: RgbaImage, max_size: u32, fitted: FittedImage)
    requires
        fit_outcome(image, max_size, fitted),
    ensures
        fitted.intrinsic_width == image.width && fitted.intrinsic_height == image.height,
        fitted.image.width <= max_size && fitted.image.height <= max_size,
        fits(image.width, image.height, max_size) ==> fitted.image == image,
        !fits(image.width, image.height, max_size) ==> fitted.image.pixels@ == resized_pixels(image.width, image.height, image.pixels@, fitted.image.width, fitted.image.height, FilterType::CatmullRom),
        !fits(image.width, image.height, max_size) && image.width >= image.height ==> fitted.image.width == max_size,
        !fits(image.width, image.height, max_size) && image.width < image.height ==> fitted.image.height == max_size,
{
}

/// An image is scaled (its size changes) exactly when it does not fit.
pub proof fn lemma_scaled_exactly_when_too_large(width: u32, height: u32, max_size: u32)
    requires
        !fits(width, height, max_size),
    ensures
        spec_scaled_size(width, height, max_size) != (width, height),
{
}

} // verus!
