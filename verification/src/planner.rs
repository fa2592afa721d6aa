//! The size planner: derives the square output dimension from the total input
//! byte count and the mode's scaling multiplier, and fixes the immutable plan
//! for one transcoding run.
//!
//! The dimension formula is `floor(sqrt(multiplier * total)) + 1`, with the
//! multiplier kept as an exact rational (`num / den`), so the result is at
//! least 1 even for empty input.

use vstd::prelude::*;
use crate::mode::ColorMode;
use crate::mode::CompressionLevel;

verus! {

/// `k` is the floor of the square root of the rational `num / den`:
/// `k^2 <= num/den < (k+1)^2`, stated over integers.
pub open spec fn is_floor_sqrt_ratio(k: int, num: int, den: int) -> bool {
    0 <= k && den * (k * k) <= num && num < den * ((k + 1) * (k + 1))
}

/// `d` is the dimension the formula assigns to a total of `total` input bytes
/// in mode `mode`: `d - 1` is the floor square root of `multiplier * total`.
pub open spec fn dimension_matches(d: int, total: int, mode: ColorMode) -> bool {
    is_floor_sqrt_ratio(
        d - 1,
        mode.spec_multiplier_num() * total,
        mode.spec_multiplier_den() as int,
    )
}

/// The dimension overflows a `u32` exactly when the floor square root of
/// `multiplier * total` is at least `u32::MAX`.
pub open spec fn dimension_exceeds_u32(total: int, mode: ColorMode) -> bool {
    (mode.spec_multiplier_den() as int) * ((u32::MAX as int) * (u32::MAX as int))
        <= mode.spec_multiplier_num() * total
}

/// Largest `k` with `k^2 * den <= num`, by binary search.
fn floor_sqrt_ratio(num: u128, den: u128) -> (r: u64)
    requires
        1 <= den <= 10,
        num <= 8 * (u64::MAX as u128),
    ensures
        is_floor_sqrt_ratio(r as int, num as int, den as int),
{
    let mut lo: u64 = 0;
    let mut hi: u64 = 0x400000000;
    proof {
        assert((den as int) * ((hi as int) * (hi as int)) > num as int) by (nonlinear_arith)
            requires
                1 <= den as int,
                num as int <= 8 * (u64::MAX as int),
                hi == 0x400000000u64,
        ;
    }
    while lo + 1 < hi
        invariant
            lo < hi <= 0x400000000u64,
            1 <= den <= 10,
            (den as int) * ((lo as int) * (lo as int)) <= num as int,
            (num as int) < (den as int) * ((hi as int) * (hi as int)),
        decreases hi - lo,
    {
        let mid: u64 = lo + (hi - lo) / 2;
        let m: u128 = mid as u128;
        proof {
            assert(m * m <= 0x400000000u128 * 0x400000000u128) by (nonlinear_arith)
                requires
                    m <= 0x400000000u128,
            ;
            assert((m * m) * den <= (0x400000000u128 * 0x400000000u128) * 10) by (nonlinear_arith)
                requires
                    m * m <= 0x400000000u128 * 0x400000000u128,
                    1 <= den <= 10,
            ;
        }
        if m * m * den <= num {
            proof {
                assert((den as int) * ((mid as int) * (mid as int)) == ((m * m) * den) as int)
                    by (nonlinear_arith)
                    requires
                        m == mid as u128,
                        (m * m) * den <= u128::MAX,
                ;
            }
            lo = mid;
        } else {
            proof {
                assert((den as int) * ((mid as int) * (mid as int)) == ((m * m) * den) as int)
                    by (nonlinear_arith)
                    requires
                        m == mid as u128,
                        (m * m) * den <= u128::MAX,
                ;
            }
            hi = mid;
        }
    }
    lo
}

/// Computes the output dimension for `total` input bytes in mode `mode`:
/// `floor(sqrt(multiplier * total)) + 1`. Returns `None` exactly when that
/// value does not fit in a `u32`.
pub fn calculate_dimension(total: u64, mode: ColorMode) -> (r: Option<u32>)
    ensures
        r matches Some(d) ==> 1 <= d && dimension_matches(d as int, total as int, mode),
        r is None <==> dimension_exceeds_u32(total as int, mode),
{
    let num_factor: u128 = mode.multiplier_num() as u128;
    proof {
        assert(num_factor <= 8);
        assert((num_factor as int) * (total as int) <= 8 * (u64::MAX as int)) by (nonlinear_arith)
            requires
                0 <= num_factor <= 8,
                0 <= total <= u64::MAX,
        ;
    }
    let num: u128 = num_factor * (total as u128);
    let den: u128 = mode.multiplier_den() as u128;
    let root = floor_sqrt_ratio(num, den);
    if root >= 0xffffffff {
        proof {
            lemma_floor_sqrt_mono(0xffffffffu32 as int, root as int, num as int, den as int);
        }
        None
    } else {
        proof {
            if dimension_exceeds_u32(total as int, mode) {
                lemma_floor_sqrt_at_least(root as int, 0xffffffffu32 as int, num as int, den as int);
            }
        }
        Some((root as u32) + 1)
    }
}

/// If `k` is the floor square root of `num / den` and `den * m^2 <= num`,
/// then `k >= m`.
proof fn lemma_floor_sqrt_at_least(k: int, m: int, num: int, den: int)
    requires
        den >= 1,
        m >= 0,
        is_floor_sqrt_ratio(k, num, den),
        den * (m * m) <= num,
    ensures
        k >= m,
{
    if k < m {
        assert(den * ((k + 1) * (k + 1)) <= den * (m * m)) by (nonlinear_arith)
            requires
                den >= 1,
                0 <= k + 1 <= m,
        ;
    }
}

/// If `m <= k` then `den * m^2 <= num` holds for the floor square root `k`.
proof fn lemma_floor_sqrt_mono(m: int, k: int, num: int, den: int)
    requires
        den >= 1,
        0 <= m <= k,
        is_floor_sqrt_ratio(k, num, den),
    ensures
        den * (m * m) <= num,
{
    assert(den * (m * m) <= den * (k * k)) by (nonlinear_arith)
        requires
            den >= 1,
            0 <= m <= k,
    ;
}

/// The floor square root of a rational is unique.
pub proof fn lemma_floor_sqrt_unique(k1: int, k2: int, num: int, den: int)
    requires
        den >= 1,
        is_floor_sqrt_ratio(k1, num, den),
        is_floor_sqrt_ratio(k2, num, den),
    ensures
        k1 == k2,
{
    if k1 < k2 {
        assert(den * ((k1 + 1) * (k1 + 1)) <= den * (k2 * k2)) by (nonlinear_arith)
            requires
                den >= 1,
                0 <= k1 + 1 <= k2,
        ;
    }
    if k2 < k1 {
        assert(den * ((k2 + 1) * (k2 + 1)) <= den * (k1 * k1)) by (nonlinear_arith)
            requires
                den >= 1,
                0 <= k2 + 1 <= k1,
        ;
    }
}

/// For every non-negative total byte count and every mode, the dimension the
/// formula assigns is at least 1, and it is unique.
pub proof fn lemma_dimension_formula(d: int, total: int, mode: ColorMode)
    requires
        total >= 0,
        dimension_matches(d, total, mode),
    ensures
        d >= 1,
        forall|d2: int| dimension_matches(d2, total, mode) ==> d2 == d,
{
    assert forall|d2: int| dimension_matches(d2, total, mode) implies d2 == d by {
        lemma_floor_sqrt_unique(
            d - 1,
            d2 - 1,
            mode.spec_multiplier_num() * total,
            mode.spec_multiplier_den() as int,
        );
    }
}

/// The views of a sequence of path strings.
pub open spec fn path_views(s: Seq<String>) -> Seq<Seq<char>> {
    s.map_values(|p: String| p@)
}

/// The immutable parameters of one transcoding run: square dimension, bytes
/// per pixel, the ordered list of input file paths, and the mode and
/// compression hint for the raster sink.
pub struct TranscodePlan {
    pub dimension: u32,
    pub bytes_per_pixel: u32,
    pub file_list: Vec<String>,
    pub color_mode: ColorMode,
    pub compression_level: CompressionLevel,
}

impl TranscodePlan {
    /// Structural well-formedness: a positive dimension and the mode's own
    /// bytes-per-pixel.
    pub open spec fn wf(&self) -> bool {
        &&& self.dimension >= 1
        &&& self.bytes_per_pixel == self.color_mode.spec_bytes_per_pixel()
    }

    /// Total pixel bytes the raster holds: `dimension^2 * bytes_per_pixel`.
    pub open spec fn capacity(&self) -> int {
        (self.dimension as int) * (self.dimension as int) * (self.bytes_per_pixel as int)
    }

    /// The plan is the one the planner derives from this total size, file
    /// list, mode and compression level.
    pub open spec fn derived_from(
        &self,
        total: int,
        files: Seq<Seq<char>>,
        mode: ColorMode,
        level: CompressionLevel,
    ) -> bool {
        &&& dimension_matches(self.dimension as int, total, mode)
        &&& self.bytes_per_pixel == mode.spec_bytes_per_pixel()
        &&& path_views(self.file_list@) == files
        &&& self.color_mode == mode
        &&& self.compression_level == level
    }
}

/// Builds the plan for one run from the already-computed total input size and
/// file list. Returns `None` exactly when the dimension does not fit a `u32`.
pub fn make_plan(
    total: u64,
    file_list: Vec<String>,
    mode: ColorMode,
    level: CompressionLevel,
) -> (r: Option<TranscodePlan>)
    ensures
        r matches Some(p) ==> p.derived_from(total as int, path_views(file_list@), mode, level)
            && p.wf(),
        r is None <==> dimension_exceeds_u32(total as int, mode),
{
    match calculate_dimension(total, mode) {
        Some(d) => Some(
            TranscodePlan {
                dimension: d,
                bytes_per_pixel: mode.bytes_per_pixel(),
                file_list,
                color_mode: mode,
                compression_level: level,
            },
        ),
        None => None,
    }
}

/// Planning is idempotent: two plans derived from the same total size, file
/// list, mode and compression level agree in every field.
pub proof fn lemma_plan_idempotent(
    p1: TranscodePlan,
    p2: TranscodePlan,
    total: int,
    files: Seq<Seq<char>>,
    mode: ColorMode,
    level: CompressionLevel,
)
    requires
        total >= 0,
        p1.derived_from(total, files, mode, level),
        p2.derived_from(total, files, mode, level),
    ensures
        p1.dimension == p2.dimension,
        p1.bytes_per_pixel == p2.bytes_per_pixel,
        path_views(p1.file_list@) == path_views(p2.file_list@),
        p1.color_mode == p2.color_mode,
        p1.compression_level == p2.compression_level,
{
    lemma_dimension_formula(p1.dimension as int, total, mode);
}

} // verus!
