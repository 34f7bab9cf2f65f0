//! The noise field: a pluggable sampling abstraction, a deterministic
//! reference source, and baking of a sampled grid into a row-padded texture
//! buffer.
//!
//! Coordinates are in microradians and samples in the fixed-point scale of
//! `FX_UNIT`: a sample `s` stands for the real value `s / FX_UNIT`, always in
//! `[-1, 1]`.

use vstd::prelude::*;
use crate::fixed::{cos_fx, cos_fx_spec, FX_UNIT};
use vstd::arithmetic::div_mod::{
    lemma_div_is_ordered, lemma_div_multiples_vanish, lemma_hoist_over_denominator,
};

verus! {

/// A noise coordinate in microradians.
pub type Coord = i64;

/// A noise sample, scaled by `FX_UNIT`; always in `[-FX_UNIT, FX_UNIT]`.
pub type Sample = i64;

/// A noise seed.
pub type Seed = u32;

/// A stateless noise field: sampling is a pure function of the coordinates
/// and the seed, and every sample lies in `[-FX_UNIT, FX_UNIT]`.
pub trait NoiseSource {
    /// The value this source takes at a point; the sampling model.
    spec fn sample_spec(&self, x: Coord, y: Coord, seed: Seed) -> int;

    /// Samples the field. The result is exactly `sample_spec`, so two calls
    /// with identical arguments return identical values.
    fn sample(&self, x: Coord, y: Coord, seed: Seed) -> (s: Sample)
        ensures
            s == self.sample_spec(x, y, seed),
            -FX_UNIT <= s <= FX_UNIT,
    ;
}

/// The reference source: a smooth periodic field, the mean of the fixed-point
/// cosines of the two coordinates. At the origin it is exactly `FX_UNIT`.
/// The seed is ignored.
pub struct TestSource;

impl NoiseSource for TestSource {
    open spec fn sample_spec(&self, x: Coord, y: Coord, seed: Seed) -> int {
        (cos_fx_spec(x as int) + cos_fx_spec(y as int)) / 2
    }

    fn sample(&self, x: Coord, y: Coord, seed: Seed) -> (s: Sample) {
        let cx = cos_fx(x);
        let cy = cos_fx(y);
        proof {
            lemma_hoist_over_denominator(cx as int + cy as int, FX_UNIT as int, 2nat);
            lemma_div_is_ordered(2 * (-FX_UNIT), cx as int + cy as int, 2);
            lemma_div_is_ordered(cx as int + cy as int, 2 * FX_UNIT, 2);
            lemma_div_multiples_vanish(-(FX_UNIT as int), 2);
            lemma_div_multiples_vanish(FX_UNIT as int, 2);
        }
        (cx + cy + 2 * FX_UNIT) / 2 - FX_UNIT
    }
}

/// The largest accepted texture edge and row alignment, in texels.
pub const MAX_TEXTURE_DIM: u32 = 4096;

/// A row stride: the texel count rounded up to the backend's alignment.
pub open spec fn padded_stride(n: int, align: int) -> int {
    ((n + align - 1) / align) * align
}

/// The value texel `k` of a baked buffer must hold: inside the row, the
/// sample at the texel's grid point remapped from `[-FX_UNIT, FX_UNIT]` to
/// `[0, FX_UNIT]`; in the row's alignment padding, zero.
pub open spec fn baked_texel<S: NoiseSource>(
    source: &S,
    n: int,
    step: int,
    seed: Seed,
    stride: int,
    k: int,
) -> int {
    let row = k / stride;
    let col = k % stride;
    if col < n {
        (source.sample_spec((col * step) as i64, (row * step) as i64, seed) + FX_UNIT) / 2
    } else {
        0
    }
}

/// The row stride, in texels, that baking uses for this texture edge and
/// alignment.
pub fn row_stride(n: u32, align: u32) -> (stride: u32)
    requires
        1 <= align <= MAX_TEXTURE_DIM,
        n <= MAX_TEXTURE_DIM,
    ensures
        stride == padded_stride(n as int, align as int),
        n <= stride,
        stride % align == 0,
        stride < 2 * MAX_TEXTURE_DIM,
{
    let q = (n + align - 1) / align;
    proof {
        let ni = n as int;
        let al = align as int;
        assert(((ni + al - 1) / al) * al % al == 0 && ni <= ((ni + al - 1) / al) * al && ((ni + al
            - 1) / al) * al < ni + al) by (nonlinear_arith)
            requires
                1 <= al,
                0 <= ni,
        ;
        assert(q * align <= 0xffff_ffff);
    }
    q * align
}

/// Bakes an `n` by `n` grid of the field into a row-major texel buffer whose
/// rows are padded to the backend's required alignment: each texel holds the
/// sample at its grid point, taken `step` microradians apart and remapped to
/// `[0, FX_UNIT]`, and every padding texel past a row's end is zero, so the
/// backend never reads an unset value.
pub fn bake_texture<S: NoiseSource>(source: &S, n: u32, step: i64, seed: Seed, align: u32) -> (buf:
    Vec<i64>)
    requires
        1 <= align <= MAX_TEXTURE_DIM,
        n <= MAX_TEXTURE_DIM,
        0 <= step <= crate::fixed::FULL_TURN_URAD,
    ensures
        buf@.len() == padded_stride(n as int, align as int) * n,
        forall|k: int|
            0 <= k < buf@.len() ==> (#[trigger] buf@[k]) == baked_texel(
                source,
                n as int,
                step as int,
                seed,
                padded_stride(n as int, align as int),
                k,
            ),
        forall|k: int| 0 <= k < buf@.len() ==> 0 <= (#[trigger] buf@[k]) <= FX_UNIT,
{
    let stride = row_stride(n, align);
    let ghost stridei = stride as int;
    let mut buf: Vec<i64> = Vec::new();
    let mut row: u32 = 0;
    while row < n
        invariant
            0 <= row <= n,
            n <= MAX_TEXTURE_DIM,
            1 <= align <= MAX_TEXTURE_DIM,
            0 <= step <= crate::fixed::FULL_TURN_URAD,
            stridei == stride,
            stride == padded_stride(n as int, align as int),
            n <= stride < 2 * MAX_TEXTURE_DIM,
            buf@.len() == row * stridei,
            forall|k: int|
                0 <= k < buf@.len() ==> (#[trigger] buf@[k]) == baked_texel(
                    source,
                    n as int,
                    step as int,
                    seed,
                    stridei,
                    k,
                ),
            forall|k: int| 0 <= k < buf@.len() ==> 0 <= (#[trigger] buf@[k]) <= FX_UNIT,
        decreases n - row,
    {
        let mut col: u32 = 0;
        while col < stride
            invariant
                0 <= col <= stride,
                0 <= row < n,
                n <= MAX_TEXTURE_DIM,
                1 <= align <= MAX_TEXTURE_DIM,
                0 <= step <= crate::fixed::FULL_TURN_URAD,
                stridei == stride,
                stride == padded_stride(n as int, align as int),
                n <= stride < 2 * MAX_TEXTURE_DIM,
                buf@.len() == row * stridei + col,
                forall|k: int|
                    0 <= k < buf@.len() ==> (#[trigger] buf@[k]) == baked_texel(
                        source,
                        n as int,
                        step as int,
                        seed,
                        stridei,
                        k,
                    ),
                forall|k: int| 0 <= k < buf@.len() ==> 0 <= (#[trigger] buf@[k]) <= FX_UNIT,
            decreases stride - col,
        {
            proof {
                let k = row as int * stridei + col as int;
                assert(k / stridei == row as int && k % stridei == col as int) by (nonlinear_arith)
                    requires
                        0 <= (row as int),
                        0 <= (col as int),
                        (col as int) < stridei,
                        k == row as int * stridei + col as int,
                ;
                assert((row as int) * stridei + (col as int) < 0x4000_0000) by (nonlinear_arith)
                    requires
                        0 <= (row as int) < 4096,
                        0 <= (col as int) < 8192,
                        0 < stridei < 8192,
                ;
                assert((col as int) * (step as int) <= 8192 * (crate::fixed::FULL_TURN_URAD as int)
                    && 0 <= (col as int) * (step as int)) by (nonlinear_arith)
                    requires
                        0 <= (col as int) < 8192,
                        0 <= (step as int) <= crate::fixed::FULL_TURN_URAD as int,
                ;
                assert((row as int) * (step as int) <= 8192 * (crate::fixed::FULL_TURN_URAD as int)
                    && 0 <= (row as int) * (step as int)) by (nonlinear_arith)
                    requires
                        0 <= (row as int) < 8192,
                        0 <= (step as int) <= crate::fixed::FULL_TURN_URAD as int,
                ;
            }
            if col < n {
                let sx = (col as i64) * step;
                let sy = (row as i64) * step;
                let s = source.sample(sx, sy, seed);
                buf.push((s + FX_UNIT) / 2);
            } else {
                buf.push(0);
            }
            col = col + 1;
        }
        proof {
            assert((row as int + 1) * stridei == row as int * stridei + stridei)
                by (nonlinear_arith);
        }
        row = row + 1;
    }
    proof {
        assert(buf@.len() == stridei * (n as int)) by (nonlinear_arith)
            requires
                buf@.len() == (n as int) * stridei,
        ;
    }
    buf
}

} // verus!
