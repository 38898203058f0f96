//! The grid rasterizer: map every pixel coordinate of a width x height grid
//! to a complex-plane sample point, evaluate its escape step, and encode the
//! count into four interleaved RGBA colour channels.

use vstd::prelude::*;
use vstd::arithmetic::div_mod::{lemma_mod_multiples_vanish, lemma_small_mod};
use vstd::arithmetic::mul::lemma_mul_is_associative;
use crate::complex::Complex;
use crate::double::{
    diff_bits, mul_double, prod_bits, sub_double, u32_double, u32_to_bits, OFFSET_BITS, SCALE_BITS,
};
use crate::escape::{evaluate, spec_evaluate};

verus! {

/// The complex-plane sample point of the pixel coordinate `(x, y)`:
/// `(y * 0.0025 - 1.5, x * 0.0025 - 1.5)` in binary64 arithmetic.  The real
/// component is derived from `y` and the imaginary one from `x` — the axes
/// are deliberately swapped relative to conventional image axes, as the
/// rendered output depends on it.
pub open spec fn spec_sample_point(x: u32, y: u32) -> Complex {
    Complex {
        re: diff_bits(prod_bits(u32_to_bits(y), SCALE_BITS), OFFSET_BITS),
        im: diff_bits(prod_bits(u32_to_bits(x), SCALE_BITS), OFFSET_BITS),
    }
}

/// The four colour-channel bytes an iteration count is encoded as:
/// red `count / 4`, green `count / 2`, blue `count`, each truncated to the
/// low 8 bits, and a fully opaque alpha of 255.
pub open spec fn color_bytes(count: nat) -> Seq<u8> {
    seq![
        ((count / 4) % 256) as u8,
        ((count / 2) % 256) as u8,
        (count % 256) as u8,
        255u8,
    ]
}

/// The four bytes of the pixel at coordinate `(x, y)` under the parameter
/// `c`.
pub open spec fn pixel_bytes(c: Complex, x: u32, y: u32) -> Seq<u8> {
    color_bytes(spec_evaluate(spec_sample_point(x, y), c))
}

/// The bytes of the pixels `(x, 0)` through `(x, h - 1)`, in increasing `y`
/// order: one full pass of the inner sampling loop.
pub open spec fn column_bytes(c: Complex, x: u32, h: int) -> Seq<u8>
    decreases h,
{
    if h <= 0 {
        Seq::empty()
    } else {
        column_bytes(c, x, h - 1) + pixel_bytes(c, x, (h - 1) as u32)
    }
}

/// The whole pixel buffer of a `w x h` grid under the parameter `c`: the
/// columns for `x = 0` through `x = w - 1`, concatenated in increasing `x`
/// order.  The buffer is thus populated column-major relative to the
/// `(width, height)` declaration, matching the outer-`x`, inner-`y` loop
/// order of the rasterizer.
pub open spec fn grid_bytes(c: Complex, w: int, h: int) -> Seq<u8>
    decreases w,
{
    if w <= 0 {
        Seq::empty()
    } else {
        grid_bytes(c, w - 1, h) + column_bytes(c, (w - 1) as u32, h)
    }
}

/// One column holds exactly `4 * h` bytes.
pub proof fn lemma_column_bytes_len(c: Complex, x: u32, h: int)
    requires
        0 <= h,
    ensures
        column_bytes(c, x, h).len() == 4 * h,
    decreases h,
{
    if h > 0 {
        lemma_column_bytes_len(c, x, h - 1);
    }
}

/// The pixel buffer of a `w x h` grid holds exactly `4 * w * h` bytes.
#[verifier::rlimit(50)]
pub proof fn lemma_grid_bytes_len(c: Complex, w: int, h: int)
    requires
        0 <= w,
        0 <= h,
    ensures
        grid_bytes(c, w, h).len() == 4 * w * h,
    decreases w,
{
    if w > 0 {
        lemma_grid_bytes_len(c, w - 1, h);
        lemma_column_bytes_len(c, (w - 1) as u32, h);
        assert(grid_bytes(c, w, h).len() == 4 * (w - 1) * h + 4 * h);
        assert(4 * (w - 1) * h + 4 * h == 4 * w * h) by (nonlinear_arith);
        assert(grid_bytes(c, w, h).len() == 4 * w * h);
    } else {
        assert(4 * w * h == 0) by (nonlinear_arith)
            requires
                w == 0,
        ;
    }
}

/// Every fourth byte of a column — each pixel's alpha channel — is 255.
pub proof fn lemma_column_bytes_alpha(c: Complex, x: u32, h: int)
    requires
        0 <= h,
    ensures
        forall|k: int|
            0 <= k < column_bytes(c, x, h).len() && k % 4 == 3 ==> column_bytes(c, x, h)[k]
                == 255,
    decreases h,
{
    if h > 0 {
        lemma_column_bytes_alpha(c, x, h - 1);
        lemma_column_bytes_len(c, x, h - 1);
        assert forall|k: int|
            0 <= k < column_bytes(c, x, h).len() && k % 4 == 3 implies column_bytes(c, x, h)[k]
            == 255 by {
            let prefix = column_bytes(c, x, h - 1);
            if k >= prefix.len() {
                let j = k - prefix.len();
                assert(k == 4 * (h - 1) + j);
                assert(0 <= j < 4);
                lemma_mod_multiples_vanish(h - 1, j, 4);
                lemma_small_mod(j as nat, 4);
                assert(j == 3);
                assert(column_bytes(c, x, h)[k] == pixel_bytes(c, x, (h - 1) as u32)[3]);
            }
        }
    }
}

/// Every fourth byte of the whole pixel buffer — each pixel's alpha
/// channel — is 255.
pub proof fn lemma_grid_bytes_alpha(c: Complex, w: int, h: int)
    requires
        0 <= w,
        0 <= h,
    ensures
        forall|k: int|
            0 <= k < grid_bytes(c, w, h).len() && k % 4 == 3 ==> grid_bytes(c, w, h)[k] == 255,
    decreases w,
{
    if w > 0 {
        lemma_grid_bytes_alpha(c, w - 1, h);
        lemma_grid_bytes_len(c, w - 1, h);
        lemma_column_bytes_len(c, (w - 1) as u32, h);
        lemma_column_bytes_alpha(c, (w - 1) as u32, h);
        assert forall|k: int|
            0 <= k < grid_bytes(c, w, h).len() && k % 4 == 3 implies grid_bytes(c, w, h)[k]
            == 255 by {
            let prefix = grid_bytes(c, w - 1, h);
            if k >= prefix.len() {
                let j = k - prefix.len();
                assert(k == 4 * (w - 1) * h + j);
                lemma_mul_is_associative(4, w - 1, h);
                assert(k == 4 * ((w - 1) * h) + j);
                lemma_mod_multiples_vanish((w - 1) * h, j, 4);
                assert(j % 4 == 3);
                assert(grid_bytes(c, w, h)[k] == column_bytes(c, (w - 1) as u32, h)[j]);
            }
        }
    }
}

/// Within one column, the pixel of coordinate `y` sits at byte offset
/// `4 * y`.
pub proof fn lemma_column_bytes_at(c: Complex, x: u32, h: int, y: u32, ch: int)
    requires
        0 <= y < h,
        0 <= ch < 4,
    ensures
        column_bytes(c, x, h)[4 * y + ch] == pixel_bytes(c, x, y)[ch],
    decreases h,
{
    lemma_column_bytes_len(c, x, h - 1);
    if y < h - 1 {
        lemma_column_bytes_at(c, x, h - 1, y, ch);
    }
}

/// The buffer index of colour channel `ch` of the pixel at coordinate
/// `(x, y)` is `4 * (x * h + y) + ch`: pixels are laid out column-major
/// relative to the `(width, height)` declaration.
pub proof fn lemma_grid_bytes_at(c: Complex, w: int, h: int, x: u32, y: u32, ch: int)
    requires
        0 <= x < w,
        0 <= y < h,
        0 <= ch < 4,
    ensures
        grid_bytes(c, w, h)[4 * (x * h + y) + ch] == pixel_bytes(c, x, y)[ch],
    decreases w,
{
    lemma_grid_bytes_len(c, w - 1, h);
    if x < w - 1 {
        lemma_grid_bytes_at(c, w - 1, h, x, y, ch);
        assert(x * h + y < (w - 1) * h) by (nonlinear_arith)
            requires
                0 <= x,
                x <= w - 2,
                0 <= y < h,
        ;
        lemma_mul_is_associative(4, w - 1, h);
    } else {
        assert(x == w - 1);
        lemma_mul_is_associative(4, w - 1, h);
        assert(4 * (x * h + y) + ch == 4 * ((w - 1) * h) + (4 * y + ch)) by (nonlinear_arith)
            requires
                x == w - 1,
        ;
        lemma_column_bytes_at(c, x, h, y, ch);
        lemma_column_bytes_len(c, x, h);
    }
}

/// The sample point of the pixel coordinate `(x, y)`.
pub fn sample_point(x: u32, y: u32) -> (r: Complex)
    ensures
        r == spec_sample_point(x, y),
{
    Complex {
        re: sub_double(mul_double(u32_double(y), SCALE_BITS), OFFSET_BITS),
        im: sub_double(mul_double(u32_double(x), SCALE_BITS), OFFSET_BITS),
    }
}

/// Encode an iteration count into its four colour-channel bytes.
pub fn encode_color(count: u32) -> (r: (u8, u8, u8, u8))
    ensures
        seq![r.0, r.1, r.2, r.3] == color_bytes(count as nat),
{
    let q4: u32 = count / 4;
    let q2: u32 = count / 2;
    let red = #[verifier::truncate] (q4 as u8);
    let green = #[verifier::truncate] (q2 as u8);
    let blue = #[verifier::truncate] (count as u8);
    proof {
        assert(q4 as u8 == (q4 % 256) as u8) by (bit_vector);
        assert(q2 as u8 == (q2 % 256) as u8) by (bit_vector);
        assert(count as u8 == (count % 256) as u8) by (bit_vector);
        assert(seq![red, green, blue, 255u8] =~= color_bytes(count as nat));
    }
    (red, green, blue, 255)
}

/// Rasterize the `width x height` grid under the parameter whose components
/// have the bit patterns `re` and `im`: for each `x`, for each `y`, the
/// escape step of the sample point of `(x, y)` encoded as four RGBA bytes.
///
/// The result is exactly [`grid_bytes`]; in particular it holds
/// `4 * width * height` bytes and every pixel is fully opaque.
pub fn generate_pixels(width: u32, height: u32, re: u64, im: u64) -> (r: Vec<u8>)
    requires
        4 * width * height <= usize::MAX,
    ensures
        r@ == grid_bytes(Complex { re, im }, width as int, height as int),
        r@.len() == 4 * width * height,
        forall|k: int| 0 <= k < r@.len() && k % 4 == 3 ==> r@[k] == 255,
{
    let c = Complex { re, im };
    let mut data: Vec<u8> = Vec::new();
    let mut x: u32 = 0;
    while x < width
        invariant
            x <= width,
            data@ == grid_bytes(c, x as int, height as int),
        decreases width - x,
    {
        let mut y: u32 = 0;
        while y < height
            invariant
                y <= height,
                x < width,
                data@ == grid_bytes(c, x as int, height as int) + column_bytes(c, x, y as int),
            decreases height - y,
        {
            let z = sample_point(x, y);
            let count = evaluate(z, c);
            let (red, green, blue, alpha) = encode_color(count);
            data.push(red);
            data.push(green);
            data.push(blue);
            data.push(alpha);
            proof {
                assert(data@ =~= grid_bytes(c, x as int, height as int) + column_bytes(
                    c,
                    x,
                    y as int + 1,
                ));
            }
            y = y + 1;
        }
        x = x + 1;
    }
    proof {
        lemma_grid_bytes_len(c, width as int, height as int);
        lemma_grid_bytes_alpha(c, width as int, height as int);
    }
    data
}

} // verus!
