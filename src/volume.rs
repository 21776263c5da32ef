//! The volume: a grid of 16-bit densities, read from its raw file format and
//! sampled with trilinear filtering.
//!
//! The raw format is a sequence of little-endian 16-bit values: the three
//! dimensions `x`, `y`, `z`, then `x * y * z` samples, `x` varying fastest.
//! Samples use their low 12 bits; a density is a sample shifted up by four
//! bits, in units of `1 / 65535`.
use vstd::prelude::*;

use crate::composite::FIXED_ONE;

verus! {

/// Why a raw volume file cannot be read.
#[derive(Clone, Copy, Debug, PartialEq, Eq, Structural)]
pub enum VolumeError {
    /// The file ends before the three dimensions.
    MissingDimensions,
    /// The number of samples differs from the product of the dimensions.
    SizeMismatch,
}

/// The 16-bit value at position `i` of the file, the low byte first.
pub open spec fn word_at(b: Seq<u8>, i: int) -> int {
    b[2 * i] as int + 256 * b[2 * i + 1] as int
}

/// The number of whole 16-bit values in the file; a trailing odd byte is
/// ignored.
pub open spec fn word_count(b: Seq<u8>) -> int {
    b.len() as int / 2
}

/// The density a 12-bit sample stands for: shifted up by four bits, keeping
/// 16 bits.
pub open spec fn density_of_sample(v: int) -> int {
    (v * 16) % 65536
}

/// A volume: its dimensions, the raw samples, and the density of each.
pub struct VolumeData {
    pub dims: (usize, usize, usize),
    pub samples: Vec<u16>,
    pub densities: Vec<u16>,
}

/// What reading the file yields: the dimensions from its first three values,
/// and the samples after them; an error when there are fewer than three
/// values, or when the samples are not exactly as many as the dimensions
/// multiply to.
pub open spec fn parse_ok(b: Seq<u8>) -> bool {
    &&& word_count(b) >= 3
    &&& word_count(b) - 3 == word_at(b, 0) * word_at(b, 1) * word_at(b, 2)
}

/// Reads the first 16-bit value at `2 * i`, the low byte first.
fn read_word(bytes: &Vec<u8>, i: usize) -> (r: u16)
    requires
        2 * i + 1 < bytes@.len() <= usize::MAX,
    ensures
        r == word_at(bytes@, i as int),
{
    (bytes[2 * i] as u16) + 256 * (bytes[2 * i + 1] as u16)
}

/// Reads a raw volume file.
pub fn load_volume_data(bytes: &Vec<u8>) -> (r: Result<VolumeData, VolumeError>)
    ensures
        word_count(bytes@) < 3 ==> r == Err::<VolumeData, VolumeError>(VolumeError::MissingDimensions),
        word_count(bytes@) >= 3 && !parse_ok(bytes@) ==> r == Err::<VolumeData, VolumeError>(
            VolumeError::SizeMismatch,
        ),
        parse_ok(bytes@) <==> r.is_ok(),
        r matches Ok(v) ==> {
            &&& v.dims == (
                word_at(bytes@, 0) as usize,
                word_at(bytes@, 1) as usize,
                word_at(bytes@, 2) as usize,
            )
            &&& v.samples@.len() == word_count(bytes@) - 3
            &&& v.densities@.len() == v.samples@.len()
            &&& forall|i: int|
                0 <= i < v.samples@.len() ==> #[trigger] v.samples@[i] == word_at(bytes@, i + 3)
                    && v.densities@[i] == density_of_sample(v.samples@[i] as int)
        },
{
    let n = bytes.len() / 2;
    if n < 3 {
        return Err(VolumeError::MissingDimensions);
    }
    let x = read_word(bytes, 0);
    let y = read_word(bytes, 1);
    let z = read_word(bytes, 2);
    proof {
        assert((x as u64) * (y as u64) <= 65535 * 65535) by (nonlinear_arith)
            requires
                x <= 65535,
                y <= 65535,
        ;
        assert((x as u64) * (y as u64) * (z as u64) <= 65535 * 65535 * 65535) by (nonlinear_arith)
            requires
                (x as u64) * (y as u64) <= 65535 * 65535,
                z <= 65535,
        ;
    }
    let expected: u64 = (x as u64) * (y as u64) * (z as u64);
    if expected != (n - 3) as u64 {
        return Err(VolumeError::SizeMismatch);
    }
    let mut samples: Vec<u16> = Vec::new();
    let mut densities: Vec<u16> = Vec::new();
    let mut i: usize = 3;
    while i < n
        invariant
            n == word_count(bytes@),
            bytes@.len() <= usize::MAX,
            3 <= i <= n,
            samples@.len() == i - 3,
            densities@.len() == i - 3,
            forall|k: int|
                0 <= k < i - 3 ==> #[trigger] samples@[k] == word_at(bytes@, k + 3) && densities@[k]
                    == density_of_sample(samples@[k] as int),
        decreases n - i,
    {
        let v = read_word(bytes, i);
        samples.push(v);
        densities.push(((v as u32 * 16) % 65536) as u16);
        i += 1;
    }
    Ok(VolumeData { dims: (x as usize, y as usize, z as usize), samples, densities })
}

/// The scale of each axis that gives the cube the volume's proportions: each
/// dimension divided by the median dimension, as `(numerator, denominator)`.
pub fn cube_scaling(dims: (usize, usize, usize)) -> (r: ((usize, usize, usize), usize))
    ensures
        r.0 == dims,
        r.1 == median3(dims.0 as int, dims.1 as int, dims.2 as int),
{
    let (a, b, c) = dims;
    let mid = if (a <= b && b <= c) || (c <= b && b <= a) {
        b
    } else if (b <= a && a <= c) || (c <= a && a <= b) {
        a
    } else {
        c
    };
    (dims, mid)
}

/// The middle one of three numbers.
pub open spec fn median3(a: int, b: int, c: int) -> int {
    if (a <= b && b <= c) || (c <= b && b <= a) {
        b
    } else if (b <= a && a <= c) || (c <= a && a <= b) {
        a
    } else {
        c
    }
}

/// A grid of densities ready for sampling.
pub struct Volume {
    pub width: usize,
    pub height: usize,
    pub depth: usize,
    pub densities: Vec<u16>,
}

impl Volume {
    /// At least one voxel on each axis, one density per voxel, and a size
    /// whose index arithmetic fits.
    pub open spec fn wf(&self) -> bool {
        &&& 1 <= self.width <= 65535
        &&& 1 <= self.height <= 65535
        &&& 1 <= self.depth <= 65535
        &&& self.densities@.len() == self.width * self.height * self.depth
    }

    /// The density of voxel `(i, j, k)`, `x` varying fastest.
    pub open spec fn voxel(&self, i: int, j: int, k: int) -> int {
        self.densities@[i + self.width * (j + self.height * k)] as int
    }

    /// A volume over parsed data, when each dimension is at least one and the
    /// samples fill the grid.
    pub fn from_data(data: VolumeData) -> (r: Option<Volume>)
        ensures
            r matches Some(v) ==> v.wf() && v.width == data.dims.0 && v.height == data.dims.1
                && v.depth == data.dims.2 && v.densities@ == data.densities@,
            r.is_none() <==> !(1 <= data.dims.0 <= 65535 && 1 <= data.dims.1 <= 65535 && 1
                <= data.dims.2 <= 65535 && data.densities@.len() == data.dims.0 * data.dims.1
                * data.dims.2),
    {
        let (w, h, d) = data.dims;
        if w < 1 || w > 65535 || h < 1 || h > 65535 || d < 1 || d > 65535 {
            return None;
        }
        proof {
            assert((w as u64) * (h as u64) <= 65535 * 65535) by (nonlinear_arith)
                requires
                    w <= 65535,
                    h <= 65535,
            ;
            assert((w as u64) * (h as u64) * (d as u64) <= 65535 * 65535 * 65535) by (nonlinear_arith)
                requires
                    (w as u64) * (h as u64) <= 65535 * 65535,
                    d <= 65535,
            ;
        }
        let expected: u64 = (w as u64) * (h as u64) * (d as u64);
        if data.densities.len() as u64 != expected {
            return None;
        }
        Some(Volume { width: w, height: h, depth: d, densities: data.densities })
    }
}

/// `a` blended towards `b` by `f / FIXED_ONE`, rounded down.
pub open spec fn lerp_fixed(a: int, b: int, f: int) -> int {
    (a * (FIXED_ONE - f) + b * f) / FIXED_ONE as int
}

proof fn lemma_lerp_fixed_bounds(a: int, b: int, f: int)
    requires
        0 <= a <= 65535,
        0 <= b <= 65535,
        0 <= f <= FIXED_ONE,
    ensures
        0 <= lerp_fixed(a, b, f) <= 65535,
{
    let one = FIXED_ONE as int;
    assert(0 <= a * (one - f) + b * f <= 65535 * one) by (nonlinear_arith)
        requires
            0 <= a <= 65535,
            0 <= b <= 65535,
            0 <= f <= one,
    ;
    assert((a * (one - f) + b * f) / one <= 65535) by (nonlinear_arith)
        requires
            0 <= a * (one - f) + b * f <= 65535 * one,
            one > 0,
    ;
}

fn lerp_fixed_exec(a: u16, b: u16, f: u32) -> (r: u16)
    requires
        f <= FIXED_ONE,
    ensures
        r == lerp_fixed(a as int, b as int, f as int),
{
    proof {
        lemma_lerp_fixed_bounds(a as int, b as int, f as int);
        assert((a as u64) * ((FIXED_ONE - f) as u64) + (b as u64) * (f as u64) <= 65535 * FIXED_ONE) by (nonlinear_arith)
            requires
                a <= 65535,
                b <= 65535,
                f <= FIXED_ONE,
        ;
    }
    let num: u64 = (a as u64) * ((FIXED_ONE - f) as u64) + (b as u64) * (f as u64);
    (num / FIXED_ONE as u64) as u16
}

/// Where a coordinate `p / FIXED_ONE` falls along an axis of `n` voxels whose
/// centres span `[0, 1]`: the voxel at or below it, the next one (the same
/// at the far end), and the fraction between them in units of
/// `1 / FIXED_ONE`.
pub open spec fn axis_cell(p: int, n: int) -> (int, int, int) {
    let t = p * (n - 1);
    let i = t / FIXED_ONE as int;
    let f = t % FIXED_ONE as int;
    let j = if i + 1 < n { i + 1 } else { i };
    (i, j, f)
}

proof fn lemma_axis_cell(p: int, n: int)
    requires
        0 <= p <= FIXED_ONE,
        1 <= n <= 65535,
    ensures
        0 <= axis_cell(p, n).0 < n,
        0 <= axis_cell(p, n).1 < n,
        0 <= axis_cell(p, n).2 < FIXED_ONE,
{
    let one = FIXED_ONE as int;
    assert(0 <= p * (n - 1) <= one * (n - 1)) by (nonlinear_arith)
        requires
            0 <= p <= one,
            1 <= n,
    ;
    assert((p * (n - 1)) / one <= n - 1) by (nonlinear_arith)
        requires
            0 <= p * (n - 1) <= one * (n - 1),
            one > 0,
    ;
}

fn axis_cell_exec(p: u32, n: usize) -> (r: (usize, usize, u32))
    requires
        p <= FIXED_ONE,
        1 <= n <= 65535,
    ensures
        r.0 as int == axis_cell(p as int, n as int).0,
        r.1 as int == axis_cell(p as int, n as int).1,
        r.2 as int == axis_cell(p as int, n as int).2,
        r.0 < n,
        r.1 < n,
        r.2 < FIXED_ONE,
{
    proof {
        lemma_axis_cell(p as int, n as int);
        assert((p as u64) * ((n - 1) as u64) <= (FIXED_ONE as u64) * 65535) by (nonlinear_arith)
            requires
                p <= FIXED_ONE,
                1 <= n <= 65535,
        ;
    }
    let t: u64 = (p as u64) * ((n - 1) as u64);
    let i = (t / FIXED_ONE as u64) as usize;
    let f = (t % FIXED_ONE as u64) as u32;
    let j = if i + 1 < n { i + 1 } else { i };
    (i, j, f)
}

/// The point with volume-space coordinates `(x, y, z) / FIXED_ONE`, each in
/// `[0, 1]`.
#[derive(Clone, Copy, Debug, PartialEq, Eq, Structural)]
pub struct VolumePoint {
    pub x: u32,
    pub y: u32,
    pub z: u32,
}

impl VolumePoint {
    pub open spec fn in_unit_cube(self) -> bool {
        self.x <= FIXED_ONE && self.y <= FIXED_ONE && self.z <= FIXED_ONE
    }
}

/// The density at `p`, blended from the eight voxels around it: first along
/// `x`, then `y`, then `z`.
pub open spec fn trilinear(v: Volume, p: VolumePoint) -> int {
    let (i0, i1, fx) = axis_cell(p.x as int, v.width as int);
    let (j0, j1, fy) = axis_cell(p.y as int, v.height as int);
    let (k0, k1, fz) = axis_cell(p.z as int, v.depth as int);
    let c00 = lerp_fixed(v.voxel(i0, j0, k0), v.voxel(i1, j0, k0), fx);
    let c10 = lerp_fixed(v.voxel(i0, j1, k0), v.voxel(i1, j1, k0), fx);
    let c01 = lerp_fixed(v.voxel(i0, j0, k1), v.voxel(i1, j0, k1), fx);
    let c11 = lerp_fixed(v.voxel(i0, j1, k1), v.voxel(i1, j1, k1), fx);
    let c0 = lerp_fixed(c00, c10, fy);
    let c1 = lerp_fixed(c01, c11, fy);
    lerp_fixed(c0, c1, fz)
}

proof fn lemma_voxel_index(w: int, h: int, d: int, i: int, j: int, k: int)
    requires
        0 <= i < w,
        0 <= j < h,
        0 <= k < d,
    ensures
        0 <= h * k,
        0 <= j + h * k < h * d,
        h * d <= w * h * d,
        0 <= w * (j + h * k),
        0 <= i + w * (j + h * k) < w * h * d,
{
    assert(0 <= h * k) by (nonlinear_arith)
        requires
            0 <= j < h,
            0 <= k,
    ;
    assert(j + h * k < h * d) by (nonlinear_arith)
        requires
            0 <= j < h,
            0 <= k < d,
    {
        assert(h * k <= h * (d - 1));
    }
    assert(h * d <= w * h * d) by (nonlinear_arith)
        requires
            0 <= i < w,
            0 <= j < h,
            0 <= k < d,
    ;
    assert(0 <= w * (j + h * k)) by (nonlinear_arith)
        requires
            0 <= i < w,
            0 <= j + h * k,
    ;
    assert(0 <= i + w * (j + h * k) < w * h * d) by (nonlinear_arith)
        requires
            0 <= i < w,
            0 <= j < h,
            0 <= k < d,
    {
        assert(j + h * k <= h * d - 1) by (nonlinear_arith)
            requires
                0 <= j < h,
                0 <= k < d,
        {
            assert(h * k <= h * (d - 1));
        }
        assert(w * (j + h * k) <= w * (h * d - 1));
    }
}

impl Volume {
    fn voxel_exec(&self, i: usize, j: usize, k: usize) -> (r: u16)
        requires
            self.wf(),
            i < self.width,
            j < self.height,
            k < self.depth,
        ensures
            r as int == self.voxel(i as int, j as int, k as int),
    {
        proof {
            lemma_voxel_index(self.width as int, self.height as int, self.depth as int, i as int, j as int, k as int);
        }
        let len = self.densities.len();
        self.densities[i + self.width * (j + self.height * k)]
    }

    /// The density at `p`, trilinearly filtered.
    pub fn sample(&self, p: VolumePoint) -> (r: u16)
        requires
            self.wf(),
            p.in_unit_cube(),
        ensures
            r as int == trilinear(*self, p),
    {
        let (i0, i1, fx) = axis_cell_exec(p.x, self.width);
        let (j0, j1, fy) = axis_cell_exec(p.y, self.height);
        let (k0, k1, fz) = axis_cell_exec(p.z, self.depth);
        let c00 = lerp_fixed_exec(self.voxel_exec(i0, j0, k0), self.voxel_exec(i1, j0, k0), fx);
        let c10 = lerp_fixed_exec(self.voxel_exec(i0, j1, k0), self.voxel_exec(i1, j1, k0), fx);
        let c01 = lerp_fixed_exec(self.voxel_exec(i0, j0, k1), self.voxel_exec(i1, j0, k1), fx);
        let c11 = lerp_fixed_exec(self.voxel_exec(i0, j1, k1), self.voxel_exec(i1, j1, k1), fx);
        let c0 = lerp_fixed_exec(c00, c10, fy);
        let c1 = lerp_fixed_exec(c01, c11, fy);
        lerp_fixed_exec(c0, c1, fz)
    }
}

/// A filtered density is a 16-bit density.
pub proof fn lemma_trilinear_bounds(v: Volume, p: VolumePoint)
    requires
        v.wf(),
        p.in_unit_cube(),
    ensures
        0 <= trilinear(v, p) <= 65535,
{
    lemma_axis_cell(p.x as int, v.width as int);
    lemma_axis_cell(p.y as int, v.height as int);
    lemma_axis_cell(p.z as int, v.depth as int);
    let (i0, i1, fx) = axis_cell(p.x as int, v.width as int);
    let (j0, j1, fy) = axis_cell(p.y as int, v.height as int);
    let (k0, k1, fz) = axis_cell(p.z as int, v.depth as int);
    lemma_lerp_fixed_bounds(v.voxel(i0, j0, k0), v.voxel(i1, j0, k0), fx);
    lemma_lerp_fixed_bounds(v.voxel(i0, j1, k0), v.voxel(i1, j1, k0), fx);
    lemma_lerp_fixed_bounds(v.voxel(i0, j0, k1), v.voxel(i1, j0, k1), fx);
    lemma_lerp_fixed_bounds(v.voxel(i0, j1, k1), v.voxel(i1, j1, k1), fx);
    let c00 = lerp_fixed(v.voxel(i0, j0, k0), v.voxel(i1, j0, k0), fx);
    let c10 = lerp_fixed(v.voxel(i0, j1, k0), v.voxel(i1, j1, k0), fx);
    let c01 = lerp_fixed(v.voxel(i0, j0, k1), v.voxel(i1, j0, k1), fx);
    let c11 = lerp_fixed(v.voxel(i0, j1, k1), v.voxel(i1, j1, k1), fx);
    lemma_lerp_fixed_bounds(c00, c10, fy);
    lemma_lerp_fixed_bounds(c01, c11, fy);
    lemma_lerp_fixed_bounds(lerp_fixed(c00, c10, fy), lerp_fixed(c01, c11, fy), fz);
}

} // verus!
