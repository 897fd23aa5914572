//! The division of an image among workers, and the film that gathers what
//! they render.
//!
//! Each worker renders a range of columns of its own. It sends every pixel
//! to the coordinator, which puts it on the film in whatever order the
//! pixels arrive and reads the film out, row by row, once all workers are
//! done.

use crate::math::{lemma_rank_orders_values, Scalar, FRACTIONS};
use crate::spectrum::Spectrum;
use vstd::arithmetic::div_mod::lemma_fundamental_div_mod_converse;
use vstd::arithmetic::power2::{
    lemma2_to64, lemma2_to64_rest, lemma_pow2_adds, lemma_pow2_pos, pow2,
};
use vstd::prelude::*;

verus! {

/// The number of columns that each worker but the last renders.
pub open spec fn chunk(width: u32, nthreads: u32) -> int {
    width as int / nthreads as int
}

/// The first column of worker `i` and the column after its last. Each
/// worker starts where the one before it ends, and the last worker renders
/// up to the last column, so that it takes the columns that are left over
/// where the number of workers does not divide the width.
pub open spec fn spec_columns(width: u32, nthreads: u32, i: int) -> (int, int) {
    (
        i * chunk(width, nthreads),
        if i == nthreads - 1 {
            width as int
        } else {
            i * chunk(width, nthreads) + chunk(width, nthreads)
        },
    )
}

/// Whether worker `i` renders column `x`.
pub open spec fn renders(width: u32, nthreads: u32, i: int, x: int) -> bool {
    spec_columns(width, nthreads, i).0 <= x < spec_columns(width, nthreads, i).1
}

/// Whether some worker renders column `x`.
pub open spec fn rendered(width: u32, nthreads: u32, x: int) -> bool {
    exists|i: int| 0 <= i < nthreads && renders(width, nthreads, i, x)
}

/// The ranges lie inside the image, one after the other from column 0 to
/// the last column.
pub proof fn lemma_columns_follow(width: u32, nthreads: u32, i: int)
    requires
        nthreads > 0,
        0 <= i < nthreads,
    ensures
        0 <= spec_columns(width, nthreads, i).0 <= spec_columns(width, nthreads, i).1 <= width,
        spec_columns(width, nthreads, 0).0 == 0,
        i + 1 < nthreads ==> spec_columns(width, nthreads, i).1 == spec_columns(
            width,
            nthreads,
            i + 1,
        ).0,
        spec_columns(width, nthreads, nthreads - 1).1 == width,
{
    let c = chunk(width, nthreads);
    let n = nthreads as int;
    assert(0 <= c && c * n <= width) by (nonlinear_arith)
        requires
            c == width as int / n,
            n > 0,
            width >= 0,
    ;
    assert(0 <= i * c && i * c + c <= n * c && (i + 1) * c == i * c + c && i * c <= (n - 1) * c
        && (n - 1) * c <= n * c) by (nonlinear_arith)
        requires
            0 <= c,
            0 <= i < n,
    ;
    assert(n * c == c * n) by (nonlinear_arith);
}

/// No column is rendered twice: a column that lies in the range of a worker
/// lies in the range of no other.
pub proof fn lemma_columns_are_disjoint(width: u32, nthreads: u32, i: int, x: int)
    requires
        nthreads > 0,
        0 <= i < nthreads,
        renders(width, nthreads, i, x),
    ensures
        0 <= x < width,
        forall|j: int| 0 <= j < nthreads && renders(width, nthreads, j, x) ==> j == i,
{
    let c = chunk(width, nthreads);
    let n = nthreads as int;
    lemma_columns_follow(width, nthreads, i);
    assert forall|j: int| 0 <= j < nthreads && renders(width, nthreads, j, x) implies j == i by {
        if j < i {
            // Worker `j` is not the last and ends no later than `i` starts.
            assert(j * c + c <= i * c) by (nonlinear_arith)
                requires
                    0 <= j < i,
                    0 <= c,
            ;
        } else if i < j {
            assert(i * c + c <= j * c) by (nonlinear_arith)
                requires
                    0 <= i < j,
                    0 <= c,
            ;
        }
    }
}

/// Every column is rendered: each column of the image lies in the range of
/// a worker, whatever the number of workers, and no range holds anything
/// but columns of the image.
pub proof fn lemma_columns_cover(width: u32, nthreads: u32, x: int)
    requires
        nthreads > 0,
    ensures
        rendered(width, nthreads, x) == (0 <= x < width),
{
    let c = chunk(width, nthreads);
    let n = nthreads as int;
    assert(0 <= c) by (nonlinear_arith)
        requires
            c == width as int / n,
            n > 0,
            width >= 0,
    ;
    if 0 <= x < width {
        if c > 0 && x / c < n - 1 {
            let i = x / c;
            assert(0 <= i && i * c <= x < i * c + c) by (nonlinear_arith)
                requires
                    i == x / c,
                    0 <= x,
                    0 < c,
            ;
            assert(renders(width, nthreads, i, x));
        } else {
            assert((n - 1) * c <= x) by (nonlinear_arith)
                requires
                    0 <= x,
                    0 <= c,
                    n > 0,
                    c > 0 ==> x / c >= n - 1,
            ;
            assert(renders(width, nthreads, n - 1, x));
        }
    }
    if exists|i: int| 0 <= i < nthreads && renders(width, nthreads, i, x) {
        let i = choose|i: int| 0 <= i < nthreads && renders(width, nthreads, i, x);
        lemma_columns_follow(width, nthreads, i);
    }
}

/// The range of columns that worker `i` of `nthreads` renders of an image
/// that is `width` columns wide: its first column and the column after its
/// last. See [`spec_columns`].
pub fn columns(width: u32, nthreads: u32, i: u32) -> (r: (u32, u32))
    requires
        nthreads > 0,
        i < nthreads,
    ensures
        (r.0 as int, r.1 as int) == spec_columns(width, nthreads, i as int),
        r.0 <= r.1 <= width,
{
    proof {
        lemma_columns_follow(width, nthreads, i as int);
    }
    let xchunk_size = width / nthreads;
    let xstart = i * xchunk_size;
    let xend = if i == nthreads - 1 {
        width
    } else {
        xstart + xchunk_size
    };
    (xstart, xend)
}

/// The ranges of all workers, in the order of the workers. Together they
/// are the columns of the image, each column in one range.
pub fn partition(width: u32, nthreads: u32) -> (r: Vec<(u32, u32)>)
    requires
        nthreads > 0,
    ensures
        r@.len() == nthreads,
        forall|i: int|
            0 <= i < nthreads ==> ((#[trigger] r@[i]).0 as int, r@[i].1 as int) == spec_columns(
                width,
                nthreads,
                i,
            ),
        forall|x: int| 0 <= x < width ==> #[trigger] rendered(width, nthreads, x),
        forall|i: int, j: int, x: int|
            0 <= i < nthreads && 0 <= j < nthreads && #[trigger] renders(width, nthreads, i, x)
                && #[trigger] renders(width, nthreads, j, x) ==> i == j,
{
    proof {
        assert forall|x: int| 0 <= x < width implies #[trigger] rendered(width, nthreads, x) by {
            lemma_columns_cover(width, nthreads, x);
        }
        assert forall|i: int, j: int, x: int|
            0 <= i < nthreads && 0 <= j < nthreads && #[trigger] renders(width, nthreads, i, x)
                && #[trigger] renders(width, nthreads, j, x) implies i == j by {
            lemma_columns_are_disjoint(width, nthreads, i, x);
        }
    }
    let mut out: Vec<(u32, u32)> = Vec::new();
    let mut i: u32 = 0;
    while i < nthreads
        invariant
            nthreads > 0,
            i <= nthreads,
            out@.len() == i,
            forall|j: int|
                0 <= j < i ==> ((#[trigger] out@[j]).0 as int, out@[j].1 as int) == spec_columns(
                    width,
                    nthreads,
                    j,
                ),
        decreases nthreads - i,
    {
        out.push(columns(width, nthreads, i));
        i += 1;
    }
    out
}

/// Whether the samples of a pixel are spread over the pixel at random:
/// they are unless there is only one.
pub fn jittered(samples_per_pixel: u32) -> (r: bool)
    ensures
        r == (samples_per_pixel != 1),
{
    samples_per_pixel != 1
}

/// The encoding of the whole number `k`, for `k` from 0 to 256.
pub open spec fn encoded(k: int) -> int {
    if k <= 0 {
        0
    } else if k < 2 {
        0x3ff0_0000_0000_0000 + (k - 1) * 0x10_0000_0000_0000
    } else if k < 4 {
        0x4000_0000_0000_0000 + (k - 2) * 0x8_0000_0000_0000
    } else if k < 8 {
        0x4010_0000_0000_0000 + (k - 4) * 0x4_0000_0000_0000
    } else if k < 16 {
        0x4020_0000_0000_0000 + (k - 8) * 0x2_0000_0000_0000
    } else if k < 32 {
        0x4030_0000_0000_0000 + (k - 16) * 0x1_0000_0000_0000
    } else if k < 64 {
        0x4040_0000_0000_0000 + (k - 32) * 0x8000_0000_0000
    } else if k < 128 {
        0x4050_0000_0000_0000 + (k - 64) * 0x4000_0000_0000
    } else if k < 256 {
        0x4060_0000_0000_0000 + (k - 128) * 0x2000_0000_0000
    } else {
        0x4070_0000_0000_0000
    }
}

/// Whether `r` is the byte for a channel that was scaled to the range of a
/// byte: the number cut off at 0 and at 255 and rounded towards zero, so
/// that `r` is not above the number and `r + 1` is; and 0 for a NaN.
pub open spec fn quantised(scaled: Scalar, r: int) -> bool {
    &&& 0 <= r <= 255
    &&& if scaled.spec_is_nan() || scaled.rank() <= 0 {
        r == 0
    } else if scaled.rank() >= encoded(255) {
        r == 255
    } else {
        encoded(r) <= scaled.rank() < encoded(r + 1)
    }
}

/// Larger whole numbers have larger encodings.
pub proof fn lemma_encoded_increases(a: int, b: int)
    requires
        0 <= a < b <= 256,
    ensures
        0 <= encoded(a) < encoded(b) <= 0x4070_0000_0000_0000,
{
}

/// The value of a positive number by its binade: the number whose exponent
/// field is 1023 more than `n` and whose fraction is the part of `k` beyond
/// two to the power of `n`, in units of two to the power of `n` less than
/// 52, is `k`.
proof fn lemma_value_in_binade(x: Scalar, k: int, n: nat)
    requires
        n <= 8,
        pow2(n) <= k < 2 * pow2(n),
        x.bits == (1023 + n) * FRACTIONS + (k - pow2(n)) * pow2((52 - n) as nat),
    ensures
        x.value() == k * pow2(1074),
{
    let unit = pow2((52 - n) as nat);
    let top = pow2(n);
    let scale = pow2(1022 + n);
    lemma2_to64();
    lemma2_to64_rest();
    lemma_pow2_adds(n, (52 - n) as nat);
    lemma_pow2_adds((52 - n) as nat, 1022 + n);
    lemma_pow2_pos((52 - n) as nat);
    let fraction = (k - top) * unit;
    assert(0 <= fraction < FRACTIONS && FRACTIONS + fraction == k * unit) by (nonlinear_arith)
        requires
            fraction == (k - top) * unit,
            top <= k < 2 * top,
            top * unit == FRACTIONS,
            0 < unit,
    ;
    assert(x.bits < crate::math::SIGN_BIT) by (nonlinear_arith)
        requires
            x.bits == (1023 + n) * FRACTIONS + fraction,
            n <= 8,
            0 <= fraction < FRACTIONS,
            FRACTIONS == 0x10_0000_0000_0000,
    ;
    lemma_fundamental_div_mod_converse(x.magnitude(), FRACTIONS as int, (1023 + n) as int, fraction);
    assert(x.size() == k * pow2(1074)) by (nonlinear_arith)
        requires
            x.size() == (k * unit) * scale,
            unit * scale == pow2(1074),
    ;
}

/// The encoding of a whole number is that of the number: its value is the
/// whole number.
pub proof fn lemma_encoded_value(k: int)
    requires
        0 <= k <= 256,
    ensures
        0 <= encoded(k) <= 0x4070_0000_0000_0000,
        (Scalar { bits: encoded(k) as u64 }).value() == k * pow2(1074),
{
    lemma2_to64();
    lemma2_to64_rest();
    let x = Scalar { bits: encoded(k) as u64 };
    if k == 0 {
        assert(x.significand() == 0);
        assert(0 * pow2(x.binade()) == 0);
    } else if k < 2 {
        lemma_value_in_binade(x, k, 0);
    } else if k < 4 {
        lemma_value_in_binade(x, k, 1);
    } else if k < 8 {
        lemma_value_in_binade(x, k, 2);
    } else if k < 16 {
        lemma_value_in_binade(x, k, 3);
    } else if k < 32 {
        lemma_value_in_binade(x, k, 4);
    } else if k < 64 {
        lemma_value_in_binade(x, k, 5);
    } else if k < 128 {
        lemma_value_in_binade(x, k, 6);
    } else if k < 256 {
        lemma_value_in_binade(x, k, 7);
    } else {
        lemma_value_in_binade(x, k, 8);
    }
}

/// The byte of a channel is the channel cut off at 0 and at 255 and
/// rounded towards zero: with one standing for two to the power of 1074 of
/// the unit of values, the byte is not above the channel, and the next
/// whole number is.
pub proof fn lemma_quantised_rounds_towards_zero(scaled: Scalar, r: int)
    requires
        quantised(scaled, r),
        !scaled.spec_is_nan(),
    ensures
        scaled.value() <= 0 ==> r == 0,
        scaled.value() >= 255 * pow2(1074) ==> r == 255,
        0 < scaled.value() < 255 * pow2(1074) ==> r * pow2(1074) <= scaled.value() < (r + 1)
            * pow2(1074),
{
    let zero = Scalar { bits: 0 };
    let full = Scalar { bits: encoded(255) as u64 };
    let lower = Scalar { bits: encoded(r) as u64 };
    let upper = Scalar { bits: encoded(r + 1) as u64 };
    lemma_encoded_value(0);
    lemma_encoded_value(255);
    lemma_encoded_value(r);
    lemma_encoded_value(r + 1);
    lemma_rank_orders_values(scaled, zero);
    lemma_rank_orders_values(scaled, full);
    lemma_rank_orders_values(scaled, lower);
    lemma_rank_orders_values(scaled, upper);
    lemma_rank_orders_values(zero, scaled);
    lemma_rank_orders_values(full, scaled);
    lemma_rank_orders_values(lower, scaled);
    lemma_rank_orders_values(upper, scaled);
    assert(0 * pow2(1074) == 0);
}

/// A channel has one byte.
pub proof fn lemma_quantised_is_unique(scaled: Scalar, a: int, b: int)
    requires
        quantised(scaled, a),
        quantised(scaled, b),
    ensures
        a == b,
{
    if !(scaled.spec_is_nan() || scaled.rank() <= 0) && scaled.rank() < encoded(255) {
        if a < b {
            if a + 1 < b {
                lemma_encoded_increases(a + 1, b);
            }
        } else if b < a {
            if b + 1 < a {
                lemma_encoded_increases(b + 1, a);
            }
        }
    }
}

/// See [`encoded`].
fn encode(k: u16) -> (r: u64)
    requires
        k <= 256,
    ensures
        r == encoded(k as int),
{
    let k = k as u64;
    if k == 0 {
        0
    } else if k < 2 {
        0x3ff0_0000_0000_0000 + (k - 1) * 0x10_0000_0000_0000
    } else if k < 4 {
        0x4000_0000_0000_0000 + (k - 2) * 0x8_0000_0000_0000
    } else if k < 8 {
        0x4010_0000_0000_0000 + (k - 4) * 0x4_0000_0000_0000
    } else if k < 16 {
        0x4020_0000_0000_0000 + (k - 8) * 0x2_0000_0000_0000
    } else if k < 32 {
        0x4030_0000_0000_0000 + (k - 16) * 0x1_0000_0000_0000
    } else if k < 64 {
        0x4040_0000_0000_0000 + (k - 32) * 0x8000_0000_0000
    } else if k < 128 {
        0x4050_0000_0000_0000 + (k - 64) * 0x4000_0000_0000
    } else if k < 256 {
        0x4060_0000_0000_0000 + (k - 128) * 0x2000_0000_0000
    } else {
        0x4070_0000_0000_0000
    }
}

/// The number that a byte stands for.
pub fn from_byte(k: u8) -> (r: Scalar)
    ensures
        r.bits == encoded(k as int),
{
    Scalar::from_bits(encode(k as u16))
}

/// The byte for a channel that was scaled to the range of a byte: see
/// [`quantised`].
pub fn quantise(scaled: Scalar) -> (r: u8)
    ensures
        quantised(scaled, r as int),
{
    if scaled.is_nan() || !scaled.gt(Scalar::zero()) {
        return 0;
    }
    let bits = scaled.to_bits();
    if bits >= encode(255) {
        return 255;
    }
    let mut lo: u16 = 0;
    let mut hi: u16 = 255;
    while hi - lo > 1
        invariant
            lo < hi <= 255,
            encoded(lo as int) <= bits < encoded(hi as int),
        decreases hi - lo,
    {
        let mid = lo + (hi - lo) / 2;
        if bits < encode(mid) {
            hi = mid;
        } else {
            lo = mid;
        }
    }
    lo as u8
}

/// The pixels that have arrived, by column and row.
#[derive(Debug)]
pub struct Film {
    width: u32,
    height: u32,
    pixels: Vec<Option<Spectrum>>,
}

/// Each pixel of an image has a place of its own in the row-major order.
pub proof fn lemma_row_major(width: int, height: int, x: int, y: int)
    requires
        0 <= x < width,
        0 <= y < height,
    ensures
        0 <= y * width + x < width * height,
        (y * width + x) / width == y,
        (y * width + x) % width == x,
{
    assert(0 <= y * width + x < width * height && (y * width + x) / width == y && (y * width + x)
        % width == x) by (nonlinear_arith)
        requires
            0 <= x < width,
            0 <= y < height,
    ;
}

impl Film {
    /// Whether the film has a place for each pixel of the image, which
    /// holds of every film that [`Self::new`] has made.
    pub closed spec fn wf(&self) -> bool {
        self.pixels@.len() == self.width * self.height
    }

    pub closed spec fn spec_width(&self) -> u32 {
        self.width
    }

    pub closed spec fn spec_height(&self) -> u32 {
        self.height
    }

    /// Whether the image has a pixel in column `x` of row `y`.
    pub open spec fn holds(&self, x: int, y: int) -> bool {
        0 <= x < self.spec_width() && 0 <= y < self.spec_height()
    }

    /// The colour in column `x` of row `y`, if the pixel has arrived.
    pub closed spec fn pixel(&self, x: int, y: int) -> Option<Spectrum> {
        if 0 <= x < self.width && 0 <= y < self.height {
            self.pixels@[y * self.width + x]
        } else {
            None
        }
    }

    /// Whether every pixel of the image has arrived.
    pub open spec fn complete(&self) -> bool {
        forall|x: int, y: int| self.holds(x, y) ==> (#[trigger] self.pixel(x, y)).is_some()
    }

    /// An empty film for an image of `width` by `height` pixels, unless the
    /// number of pixels is more than a list can hold.
    pub fn new(width: u32, height: u32) -> (r: Option<Film>)
        ensures
            r.is_some() == (width * height <= usize::MAX),
            r.is_some() ==> r.unwrap().wf() && r.unwrap().spec_width() == width
                && r.unwrap().spec_height() == height && forall|x: int, y: int|
                (#[trigger] r.unwrap().pixel(x, y)).is_none(),
    {
        proof {
            assert(width * height <= 0xffff_ffff * 0xffff_ffff) by (nonlinear_arith)
                requires
                    0 <= width <= 0xffff_ffff,
                    0 <= height <= 0xffff_ffff,
            ;
        }
        let wanted: u64 = (width as u64) * (height as u64);
        if wanted > usize::MAX as u64 {
            return None;
        }
        let n = wanted as usize;
        let mut pixels: Vec<Option<Spectrum>> = Vec::new();
        let mut i: usize = 0;
        while i < n
            invariant
                i <= n,
                pixels@.len() == i,
                forall|j: int| 0 <= j < i ==> (#[trigger] pixels@[j]).is_none(),
            decreases n - i,
        {
            pixels.push(None);
            i += 1;
        }
        let film = Film { width, height, pixels };
        proof {
            assert forall|x: int, y: int| (#[trigger] film.pixel(x, y)).is_none() by {
                if 0 <= x < width && 0 <= y < height {
                    lemma_row_major(width as int, height as int, x, y);
                }
            }
        }
        Some(film)
    }

    #[verifier::when_used_as_spec(spec_width)]
    pub fn width(&self) -> (r: u32)
        ensures
            r == self.spec_width(),
    {
        self.width
    }

    #[verifier::when_used_as_spec(spec_height)]
    pub fn height(&self) -> (r: u32)
        ensures
            r == self.spec_height(),
    {
        self.height
    }

    /// Puts the colour `c` in column `x` of row `y`, in place of what was
    /// there. A pixel outside the image is dropped; the result says whether
    /// the pixel was taken.
    pub fn insert(&mut self, x: u32, y: u32, c: Spectrum) -> (r: bool)
        requires
            old(self).wf(),
        ensures
            final(self).wf(),
            r == old(self).holds(x as int, y as int),
            final(self).spec_width() == old(self).spec_width(),
            final(self).spec_height() == old(self).spec_height(),
            forall|a: int, b: int|
                #[trigger] final(self).pixel(a, b) == if r && a == x && b == y {
                    Some(c)
                } else {
                    old(self).pixel(a, b)
                },
    {
        if x < self.width && y < self.height {
            proof {
                lemma_row_major(self.width as int, self.height as int, x as int, y as int);
            }
            let n = self.pixels.len();
            let at = (y as usize) * (self.width as usize) + (x as usize);
            self.pixels.set(at, Some(c));
            proof {
                assert forall|a: int, b: int| #[trigger]
                    self.pixel(a, b) == if a == x && b == y {
                        Some(c)
                    } else {
                        old(self).pixel(a, b)
                    } by {
                    if 0 <= a < self.width && 0 <= b < self.height {
                        lemma_row_major(self.width as int, self.height as int, a, b);
                    }
                }
            }
            true
        } else {
            false
        }
    }

    /// The colour in column `x` of row `y`, if the pixel has arrived.
    pub fn get(&self, x: u32, y: u32) -> (r: Option<Spectrum>)
        requires
            self.wf(),
        ensures
            r == self.pixel(x as int, y as int),
    {
        if x < self.width && y < self.height {
            proof {
                lemma_row_major(self.width as int, self.height as int, x as int, y as int);
            }
            let n = self.pixels.len();
            self.pixels[(y as usize) * (self.width as usize) + (x as usize)]
        } else {
            None
        }
    }

    /// The image, row by row from the top and from left to right in each
    /// row. There is no image as long as a pixel is missing.
    pub fn colours(&self) -> (r: Option<Vec<Spectrum>>)
        requires
            self.wf(),
        ensures
            r.is_some() == self.complete(),
            r.is_some() ==> r.unwrap()@.len() == self.spec_width() * self.spec_height()
                && forall|x: int, y: int|
                self.holds(x, y) ==> self.pixel(x, y) == Some(
                    #[trigger] r.unwrap()@[y * self.spec_width() + x],
                ),
    {
        let mut out: Vec<Spectrum> = Vec::new();
        let mut i: usize = 0;
        while i < self.pixels.len()
            invariant
                i <= self.pixels@.len(),
                self.pixels@.len() == self.width * self.height,
                out@.len() == i,
                forall|j: int| 0 <= j < i ==> self.pixels@[j] == Some(#[trigger] out@[j]),
            decreases self.pixels@.len() - i,
        {
            match self.pixels[i] {
                Some(c) => {
                    out.push(c);
                },
                None => {
                    proof {
                        let w = self.width as int;
                        let h = self.height as int;
                        let x = i as int % w;
                        let y = i as int / w;
                        assert(w > 0 && 0 <= x < w && 0 <= y < h && y * w + x == i)
                            by (nonlinear_arith)
                            requires
                                0 <= i < w * h,
                                0 <= w,
                                0 <= h,
                                x == i as int % w,
                                y == i as int / w,
                        ;
                        assert(self.pixel(x, y).is_none());
                    }
                    return None;
                },
            }
            i += 1;
        }
        proof {
            assert forall|x: int, y: int| self.holds(x, y) implies self.pixel(x, y) == Some(
                #[trigger] out@[y * self.spec_width() + x],
            ) by {
                lemma_row_major(self.width as int, self.height as int, x, y);
            }
            assert forall|x: int, y: int| self.holds(x, y) implies (#[trigger] self.pixel(
                x,
                y,
            )).is_some() by {
                lemma_row_major(self.width as int, self.height as int, x, y);
                assert(self.pixels@[y * self.width + x] == Some(out@[y * self.width + x]));
            }
        }
        Some(out)
    }
}

} // verus!
