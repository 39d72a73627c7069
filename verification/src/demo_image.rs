//! The demo texture: a 64 by 64 gradient whose green channel grows from left
//! to right and whose blue channel grows from top to bottom.
use vstd::prelude::*;

verus! {

/// The side of the gradient, in pixels.
pub const GRADIENT_SIDE: usize = 64;

/// The 8-bit level of the gradient at position `v` of 0 to 63: `v / 63`
/// of full intensity, rounded to the nearest level.
pub open spec fn spec_level(v: int) -> int {
    (510 * v + 63) / 126
}

/// The byte at index `k` of the demo image: the gradient fills the first
/// 64 * 64 pixels, row by row, four bytes (red, green, blue, alpha) each;
/// every byte after them is zero.
pub open spec fn spec_demo_byte(k: int) -> int {
    if k < 4 * 64 * 64 {
        let pixel = k / 4;
        let x = pixel % 64;
        let y = pixel / 64;
        let channel = k % 4;
        if channel == 0 {
            0
        } else if channel == 1 {
            spec_level(x)
        } else if channel == 2 {
            spec_level(y)
        } else {
            255
        }
    } else {
        0
    }
}

/// The level for position `v`, as a byte.
fn level(v: usize) -> (byte: u8)
    requires
        v < 64,
    ensures
        byte == spec_level(v as int),
{
    ((510 * v + 63) / 126) as u8
}

/// Builds the demo image: `width * height * 4` bytes, of which the first
/// 64 * 64 pixels hold the gradient (see [`spec_demo_byte`]). The gradient is
/// always 64 by 64, so the image must have room for it.
pub fn make_image(width: usize, height: usize) -> (bytes: Vec<u8>)
    requires
        width * height * 4 <= usize::MAX,
        width * height >= 64 * 64,
    ensures
        bytes@.len() == width * height * 4,
        forall|k: int| 0 <= k < bytes@.len() ==> bytes@[k] == spec_demo_byte(k),
        forall|k: int| 0 <= k < 4 * 64 * 64 && k % 4 == 0 ==> #[trigger] bytes@[k] == 0,
        forall|k: int| 0 <= k < 4 * 64 * 64 && k % 4 == 3 ==> #[trigger] bytes@[k] == 255,
        forall|k: int|
            0 <= k < 4 * 64 * 64 && k % 4 == 1 ==> -63 <= 126 * #[trigger] bytes@[k] - 510 * ((k / 4)
                % 64) <= 63,
        forall|k: int|
            0 <= k < 4 * 64 * 64 && k % 4 == 2 ==> -63 <= 126 * #[trigger] bytes@[k] - 510 * ((k / 4)
                / 64) <= 63,
        forall|k: int| 4 * 64 * 64 <= k < bytes@.len() ==> #[trigger] bytes@[k] == 0,
{
    let n_bytes = width * height * 4;
    let mut bytes: Vec<u8> = Vec::with_capacity(n_bytes);
    let mut j: usize = 0;
    while j < n_bytes
        invariant
            j <= n_bytes,
            bytes@.len() == j,
            forall|k: int| 0 <= k < j ==> bytes@[k] == 0,
        decreases n_bytes - j,
    {
        bytes.push(0);
        j = j + 1;
    }

    let mut i: usize = 0;
    let mut y: usize = 0;
    while y < GRADIENT_SIDE
        invariant
            y <= 64,
            i == 4 * 64 * y,
            n_bytes >= 4 * 64 * 64,
            bytes@.len() == n_bytes,
            forall|k: int| 0 <= k < i ==> bytes@[k] == spec_demo_byte(k),
            forall|k: int| i <= k < n_bytes ==> bytes@[k] == 0,
        decreases 64 - y,
    {
        let mut x: usize = 0;
        assert(i == 4 * (64 * y + x)) by (nonlinear_arith)
            requires
                i == 4 * 64 * y,
                x == 0,
        ;
        while x < GRADIENT_SIDE
            invariant
                y < 64,
                x <= 64,
                i == 4 * (64 * y + x),
                n_bytes >= 4 * 64 * 64,
                bytes@.len() == n_bytes,
                forall|k: int| 0 <= k < i ==> bytes@[k] == spec_demo_byte(k),
                forall|k: int| i <= k < n_bytes ==> bytes@[k] == 0,
            decreases 64 - x,
        {
            bytes.set(i, 0);
            bytes.set(i + 1, level(x));
            bytes.set(i + 2, level(y));
            bytes.set(i + 3, 255);
            proof {
                assert forall|k: int| i <= k < i + 4 implies bytes@[k] == spec_demo_byte(k) by {
                    assert((k / 4) == 64 * y + x);
                    assert((k / 4) % 64 == x);
                    assert((k / 4) / 64 == y);
                    assert(k % 4 == k - i);
                }
            }
            i = i + 4;
            x = x + 1;
        }
        y = y + 1;
    }
    proof {
        assert forall|k: int| 0 <= k < 4 * 64 * 64 implies {
            &&& k % 4 == 0 ==> bytes@[k] == 0
            &&& k % 4 == 3 ==> bytes@[k] == 255
            &&& k % 4 == 1 ==> -63 <= 126 * bytes@[k] - 510 * ((k / 4) % 64) <= 63
            &&& k % 4 == 2 ==> -63 <= 126 * bytes@[k] - 510 * ((k / 4) / 64) <= 63
        } by {
            lemma_demo_pixel(k);
        }
    }
    bytes
}

/// Every pixel of the gradient is opaque with no red; its green is the
/// nearest byte to its column over 63 of full intensity, and its blue the
/// nearest byte to its row over 63.
pub proof fn lemma_demo_pixel(k: int)
    requires
        0 <= k < 4 * 64 * 64,
    ensures
        k % 4 == 0 ==> spec_demo_byte(k) == 0,
        k % 4 == 3 ==> spec_demo_byte(k) == 255,
        k % 4 == 1 ==> -63 <= 126 * spec_demo_byte(k) - 510 * ((k / 4) % 64) <= 63,
        k % 4 == 2 ==> -63 <= 126 * spec_demo_byte(k) - 510 * ((k / 4) / 64) <= 63,
{
    let x = (k / 4) % 64;
    let y = (k / 4) / 64;
    assert(0 <= x < 64 && 0 <= y < 64);
    lemma_gradient_levels(x, x);
    lemma_gradient_levels(y, y);
}

/// The gradient runs from 0 to full intensity, each level is the nearest
/// byte to `v / 63` of 255, and a later position is never darker.
pub proof fn lemma_gradient_levels(v: int, w: int)
    requires
        0 <= v <= w < 64,
    ensures
        spec_level(0) == 0,
        spec_level(63) == 255,
        0 <= spec_level(v) <= 255,
        spec_level(v) <= spec_level(w),
        -63 <= 126 * spec_level(v) - 510 * v <= 63,
{
    assert(0 <= spec_level(v) <= 255) by (nonlinear_arith)
        requires
            0 <= v < 64,
    ;
    assert(spec_level(v) <= spec_level(w)) by (nonlinear_arith)
        requires
            0 <= v <= w,
    ;
    let q = spec_level(v);
    let r = (510 * v + 63) % 126;
    assert(510 * v + 63 == 126 * q + r && 0 <= r < 126) by (nonlinear_arith)
        requires
            0 <= v,
            q == (510 * v + 63) / 126,
            r == (510 * v + 63) % 126,
    ;
}

} // verus!
