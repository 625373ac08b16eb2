use vstd::prelude::*;
use vstd::seq_lib::seq_to_set_is_finite;
use vstd::set_lib::lemma_map_size_bound;

use crate::error::ExportError;
use crate::raster::Rgb;

verus! {

/// Smallest accepted layer count.
pub const MIN_LAYERS: u32 = 2;

/// Largest accepted layer count.
pub const MAX_LAYERS: u32 = 255;

/// Full-scale luminance in thousandths (`255 * 1000`).
pub const LUMA_FULL_SCALE: u64 = 255_000;

/// A layer count the quantizer accepts.
pub open spec fn valid_layers(layers: int) -> bool {
    MIN_LAYERS <= layers <= MAX_LAYERS
}

/// Luminance `0.299 R + 0.587 G + 0.114 B`, in thousandths, so it is exact.
pub open spec fn luminance_milli(p: Rgb) -> int {
    299 * p.r + 587 * p.g + 114 * p.b
}

/// The quantized level of `p` among `layers` levels: `L / step` rounded to
/// the nearest integer, halves upward, where `step = 255 / (layers - 1)`.
pub open spec fn quantized_level(p: Rgb, layers: int) -> int {
    (2 * luminance_milli(p) * (layers - 1) + LUMA_FULL_SCALE) / (2 * LUMA_FULL_SCALE)
}

/// A normalized depth `level / max_level`, a value in `[0, 1]`.
#[derive(Clone, Copy, Debug, PartialEq, Eq, Structural)]
pub struct DepthSample {
    /// Index of the depth layer, `0..=max_level`.
    pub level: u32,
    /// Number of steps between the lowest and highest layer (`layers - 1`).
    pub max_level: u32,
}

impl DepthSample {
    /// The sample's ratio is a value in `[0, 1]`.
    pub open spec fn wf(&self) -> bool {
        1 <= self.max_level && self.level <= self.max_level
    }
}

/// The depth sample that `layers` layers assign to `p`.
pub open spec fn depth_of(p: Rgb, layers: int) -> DepthSample {
    DepthSample { level: quantized_level(p, layers) as u32, max_level: (layers - 1) as u32 }
}

/// The level lies in `0..=layers-1` and is the nearest one to the exact
/// luminance ratio: `|L * (layers-1) / 255 - level| <= 1/2`.
pub proof fn lemma_level_bounds(p: Rgb, layers: int)
    requires
        valid_layers(layers),
    ensures
        0 <= quantized_level(p, layers) <= layers - 1,
        -(LUMA_FULL_SCALE as int) <= 2 * (luminance_milli(p) * (layers - 1)
            - quantized_level(p, layers) * LUMA_FULL_SCALE) < LUMA_FULL_SCALE,
{
    let a = luminance_milli(p);
    let m = layers - 1;
    let c = LUMA_FULL_SCALE as int;
    let q = quantized_level(p, layers);
    assert(0 <= a <= c);
    assert(0 <= a * m <= c * m) by (nonlinear_arith)
        requires
            0 <= a <= c,
            1 <= m,
    ;
    assert(q * (2 * c) <= 2 * a * m + c < (q + 1) * (2 * c)) by (nonlinear_arith)
        requires
            q == (2 * a * m + c) / (2 * c),
            c > 0,
    ;
    assert(0 <= q <= m) by (nonlinear_arith)
        requires
            q * (2 * c) <= 2 * a * m + c < (q + 1) * (2 * c),
            0 <= a * m <= c * m,
            c > 0,
    ;
    assert(2 * (a * m - q * c) == 2 * a * m - q * (2 * c)) by (nonlinear_arith);
}

/// Quantizes one pixel into `layers` depth layers.  Layer counts outside
/// `2..=255` are rejected with `InvalidParameter`.
pub fn quantize(pixel: Rgb, layers: u32) -> (r: Result<DepthSample, ExportError>)
    ensures
        valid_layers(layers as int) <==> r is Ok,
        !valid_layers(layers as int) ==> r == Err::<DepthSample, ExportError>(
            ExportError::InvalidParameter,
        ),
        valid_layers(layers as int) ==> r == Ok::<DepthSample, ExportError>(
            depth_of(pixel, layers as int),
        ),
        r is Ok ==> r->Ok_0.wf(),
{
    if layers < MIN_LAYERS || layers > MAX_LAYERS {
        return Err(ExportError::InvalidParameter);
    }
    Ok(quantize_valid(pixel, layers))
}

/// Quantization for a layer count already known to be valid.
pub fn quantize_valid(pixel: Rgb, layers: u32) -> (d: DepthSample)
    requires
        valid_layers(layers as int),
    ensures
        d == depth_of(pixel, layers as int),
        d.wf(),
{
    proof {
        lemma_level_bounds(pixel, layers as int);
    }
    let lum: u64 = 299 * (pixel.r as u64) + 587 * (pixel.g as u64) + 114 * (pixel.b as u64);
    let steps: u64 = (layers - 1) as u64;
    assert(lum * steps <= LUMA_FULL_SCALE * 254) by (nonlinear_arith)
        requires
            lum <= LUMA_FULL_SCALE,
            steps <= 254,
    ;
    let level: u64 = (2 * (lum * steps) + LUMA_FULL_SCALE) / (2 * LUMA_FULL_SCALE);
    assert(lum == luminance_milli(pixel));
    assert(2 * (lum * steps) == 2 * luminance_milli(pixel) * (layers - 1)) by (nonlinear_arith)
        requires
            lum == luminance_milli(pixel),
            steps == layers - 1,
    ;
    assert(level == quantized_level(pixel, layers as int));
    DepthSample { level: level as u32, max_level: steps as u32 }
}

/// The distinct levels that `layers` layers give to the pixels of `pixels`.
pub open spec fn level_set(pixels: Seq<Rgb>, layers: int) -> Set<int> {
    pixels.to_set().map(|p: Rgb| quantized_level(p, layers))
}

/// Where `fine - 1` is an odd multiple `m` of `coarse - 1`, every band of the
/// coarse quantization is a union of whole bands of the fine one: the coarse
/// level is a function of the fine level.
pub proof fn lemma_finer_layers_refine(p: Rgb, coarse: int, fine: int, m: int)
    requires
        valid_layers(coarse),
        valid_layers(fine),
        m % 2 == 1,
        fine - 1 == m * (coarse - 1),
    ensures
        quantized_level(p, coarse) == (2 * quantized_level(p, fine) + m - 1) / (2 * m),
{
    let a = luminance_milli(p);
    let c = LUMA_FULL_SCALE as int;
    let n = coarse - 1;
    let q1 = quantized_level(p, coarse);
    let q2 = quantized_level(p, fine);
    let t = m / 2;
    assert(m == 2 * t + 1);
    assert(m >= 1) by (nonlinear_arith)
        requires
            fine - 1 == m * n,
            n >= 1,
            fine - 1 >= 1,
    ;
    assert(q1 * (2 * c) <= 2 * a * n + c < (q1 + 1) * (2 * c)) by (nonlinear_arith)
        requires
            q1 == (2 * a * n + c) / (2 * c),
            c > 0,
    ;
    assert(q2 * (2 * c) <= 2 * a * (m * n) + c < (q2 + 1) * (2 * c)) by (nonlinear_arith)
        requires
            q2 == (2 * a * (m * n) + c) / (2 * c),
            c > 0,
    ;
    // Scale the coarse band by m and compare with the fine band.
    assert(m * (2 * q1 - 1) < 2 * q2 + 1) by (nonlinear_arith)
        requires
            q1 * (2 * c) <= 2 * a * n + c,
            2 * a * (m * n) + c < (q2 + 1) * (2 * c),
            m >= 1,
            c > 0,
    ;
    assert(2 * q2 - 1 < m * (2 * q1 + 1)) by (nonlinear_arith)
        requires
            2 * a * n + c < (q1 + 1) * (2 * c),
            q2 * (2 * c) <= 2 * a * (m * n) + c,
            m >= 1,
            c > 0,
    ;
    // m times an odd number is odd, and 2 * q2 is even.
    assert(m * (2 * q1 - 1) == 2 * (2 * t * q1 + q1 - t - 1) + 1) by (nonlinear_arith)
        requires
            m == 2 * t + 1,
    ;
    assert(m * (2 * q1 + 1) == 2 * (2 * t * q1 + q1 + t) + 1) by (nonlinear_arith)
        requires
            m == 2 * t + 1,
    ;
    assert((2 * m) * q1 <= 2 * q2 + m - 1 < (2 * m) * (q1 + 1)) by (nonlinear_arith)
        requires
            m * (2 * q1 - 1) < 2 * q2 + 1,
            2 * q2 - 1 < m * (2 * q1 + 1),
            m * (2 * q1 - 1) == 2 * (2 * t * q1 + q1 - t - 1) + 1,
            m * (2 * q1 + 1) == 2 * (2 * t * q1 + q1 + t) + 1,
            m == 2 * t + 1,
    ;
    assert(q1 == (2 * q2 + m - 1) / (2 * m)) by (nonlinear_arith)
        requires
            (2 * m) * q1 <= 2 * q2 + m - 1 < (2 * m) * (q1 + 1),
            m >= 1,
    ;
}

/// Over any set of pixels, quantizing with `fine` layers, where `fine - 1` is
/// an odd multiple of `coarse - 1`, yields at least as many distinct depth
/// values as quantizing with `coarse` layers.
pub proof fn lemma_finer_layers_no_fewer_levels(pixels: Seq<Rgb>, coarse: int, fine: int, m: int)
    requires
        valid_layers(coarse),
        valid_layers(fine),
        m % 2 == 1,
        fine - 1 == m * (coarse - 1),
    ensures
        level_set(pixels, coarse).finite(),
        level_set(pixels, fine).finite(),
        level_set(pixels, coarse).len() <= level_set(pixels, fine).len(),
{
    let f = |q: int| (2 * q + m - 1) / (2 * m);
    let fine_set = level_set(pixels, fine);
    let coarse_set = level_set(pixels, coarse);
    assert forall|q: int| coarse_set.contains(q) implies #[trigger] fine_set.map(f).contains(q) by {
        let p = choose|p: Rgb| pixels.to_set().contains(p) && q == quantized_level(p, coarse);
        lemma_finer_layers_refine(p, coarse, fine, m);
        assert(fine_set.contains(quantized_level(p, fine)));
    }
    assert forall|q: int| #[trigger] fine_set.map(f).contains(q) implies coarse_set.contains(q) by {
        let q2 = choose|q2: int| fine_set.contains(q2) && q == f(q2);
        let p = choose|p: Rgb| pixels.to_set().contains(p) && q2 == quantized_level(p, fine);
        lemma_finer_layers_refine(p, coarse, fine, m);
    }
    assert(coarse_set =~= fine_set.map(f));
    seq_to_set_is_finite(pixels);
    pixels.to_set().lemma_map_finite(|p: Rgb| quantized_level(p, fine));
    lemma_map_size_bound(fine_set, coarse_set, f);
}

} // verus!
