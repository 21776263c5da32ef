//! The composite pass's per-pixel work: marching a ray between its entry and
//! exit points through the volume, classifying each sample through the
//! transfer function, and blending front to back until the ray leaves the
//! volume or its opacity saturates.
//!
//! All quantities are fixed-point: `FIXED_ONE` stands for 1.0.
use vstd::prelude::*;

use crate::transfer::{lut_spec, points_wf, sample_lut, sample_lut_spec, ControlPoint, Rgba8, LUT_SIZE};
use crate::volume::{lemma_trilinear_bounds, trilinear, Volume, VolumePoint};

verus! {

/// The fixed-point scale: a value `v` stands for `v / FIXED_ONE`.
pub const FIXED_ONE: u32 = 1_000_000;

/// The parameters of the ray march and of the shading, in units of
/// `1 / FIXED_ONE`.
#[derive(Clone, Copy, Debug, PartialEq, Eq, Structural)]
pub struct CanvasShaderUniforms {
    /// Distance between two samples along a ray, in volume-space units.
    pub step_size: u32,
    /// Distance from the entry point to the first sample.
    pub base_distance: u32,
    /// Accumulated opacity at which a ray stops.
    pub opacity_threshold: u32,
    pub ambient_intensity: u32,
    pub diffuse_intensity: u32,
    pub specular_intensity: u32,
    pub shininess: u32,
}

pub open spec fn default_uniforms() -> CanvasShaderUniforms {
    CanvasShaderUniforms {
        step_size: 2_500,
        base_distance: 2_500,
        opacity_threshold: 950_000,
        ambient_intensity: 500_000,
        diffuse_intensity: 500_000,
        specular_intensity: 500_000,
        shininess: 32_000_000,
    }
}

impl Default for CanvasShaderUniforms {
    /// Step 0.0025, first sample at 0.0025, stop at opacity 0.95, ambient,
    /// diffuse and specular intensity 0.5, shininess 32.
    fn default() -> (r: CanvasShaderUniforms)
        ensures
            r == default_uniforms(),
    {
        CanvasShaderUniforms {
            step_size: 2_500,
            base_distance: 2_500,
            opacity_threshold: 950_000,
            ambient_intensity: 500_000,
            diffuse_intensity: 500_000,
            specular_intensity: 500_000,
            shininess: 32_000_000,
        }
    }
}

/// Premultiplied color and opacity gathered along a ray so far, in units of
/// `1 / FIXED_ONE`.
#[derive(Clone, Copy, Debug, PartialEq, Eq, Structural)]
pub struct Accum {
    pub r: u32,
    pub g: u32,
    pub b: u32,
    pub a: u32,
}

impl Accum {
    /// Opacity at most one, and no channel above the opacity.
    pub open spec fn wf(self) -> bool {
        &&& self.a <= FIXED_ONE
        &&& self.r <= self.a
        &&& self.g <= self.a
        &&& self.b <= self.a
    }
}

/// Nothing gathered yet.
pub open spec fn clear_accum() -> Accum {
    Accum { r: 0, g: 0, b: 0, a: 0 }
}

/// The share of a sample that still shows through what lies in front:
/// `(1 - accumulated_alpha) * sample_alpha`, rounded down.
pub open spec fn blend_weight(s: Accum, c: Rgba8) -> int {
    (FIXED_ONE - s.a) * c.a / 255
}

/// Front-to-back blending of one sample behind what is gathered:
/// the color gains `weight * sample_color`, the opacity gains `weight`.
pub open spec fn blend(s: Accum, c: Rgba8) -> Accum {
    let w = blend_weight(s, c);
    Accum {
        r: (s.r + w * c.r / 255) as u32,
        g: (s.g + w * c.g / 255) as u32,
        b: (s.b + w * c.b / 255) as u32,
        a: (s.a + w) as u32,
    }
}

/// One step of the march after the first: once the opacity has reached the
/// threshold, further samples change nothing.
pub open spec fn composite_step(s: Accum, c: Rgba8, threshold: u32) -> Accum {
    if s.a >= threshold {
        s
    } else {
        blend(s, c)
    }
}

/// What a ray gathers from its samples, nearest first. The first sample is
/// always blended; the opacity is tested after each sample.
pub open spec fn composite(samples: Seq<Rgba8>, threshold: u32) -> Accum
    decreases samples.len(),
{
    if samples.len() == 0 {
        clear_accum()
    } else if samples.len() == 1 {
        blend(clear_accum(), samples[0])
    } else {
        composite_step(composite(samples.drop_last(), threshold), samples.last(), threshold)
    }
}

proof fn lemma_blend_channel(w: int, c: int, x: int, a: int)
    requires
        0 <= w,
        0 <= c <= 255,
        0 <= x <= a,
    ensures
        0 <= w * c / 255 <= w,
        x + w * c / 255 <= a + w,
{
    assert(0 <= w * c / 255 <= w) by (nonlinear_arith)
        requires
            0 <= w,
            0 <= c <= 255,
    ;
}

/// Blending keeps opacity at most one and color within opacity.
proof fn lemma_blend_wf(s: Accum, c: Rgba8)
    requires
        s.wf(),
    ensures
        blend(s, c).wf(),
        0 <= blend_weight(s, c) <= FIXED_ONE - s.a,
{
    let w = blend_weight(s, c);
    assert(0 <= w <= FIXED_ONE - s.a) by (nonlinear_arith)
        requires
            w == (FIXED_ONE - s.a) * c.a / 255,
            s.a <= FIXED_ONE,
            c.a <= 255,
    ;
    lemma_blend_channel(w, c.r as int, s.r as int, s.a as int);
    lemma_blend_channel(w, c.g as int, s.g as int, s.a as int);
    lemma_blend_channel(w, c.b as int, s.b as int, s.a as int);
}

proof fn lemma_composite_wf(samples: Seq<Rgba8>, threshold: u32)
    ensures
        composite(samples, threshold).wf(),
    decreases samples.len(),
{
    if samples.len() == 1 {
        lemma_blend_wf(clear_accum(), samples[0]);
    } else if samples.len() > 1 {
        lemma_composite_wf(samples.drop_last(), threshold);
        lemma_blend_wf(composite(samples.drop_last(), threshold), samples.last());
    }
}

/// `w * c / 255`, which is at most `w`.
fn channel_gain(w: u32, c: u8) -> (r: u32)
    requires
        w <= FIXED_ONE,
    ensures
        r == w * c / 255,
        r <= w,
{
    proof {
        assert(w * c <= 255 * FIXED_ONE) by (nonlinear_arith)
            requires
                w <= FIXED_ONE,
                c <= 255,
        ;
        lemma_blend_channel(w as int, c as int, 0, 0);
    }
    ((w as u64 * c as u64) / 255) as u32
}

/// Blends one sample behind what is gathered.
pub fn blend_sample(s: Accum, c: Rgba8) -> (r: Accum)
    requires
        s.wf(),
    ensures
        r == blend(s, c),
        r.wf(),
{
    proof {
        lemma_blend_wf(s, c);
    }
    proof {
        assert((FIXED_ONE - s.a) as u64 * c.a as u64 <= 255 * FIXED_ONE) by (nonlinear_arith)
            requires
                s.a <= FIXED_ONE,
                c.a <= 255,
        ;
    }
    let w: u32 = ((FIXED_ONE - s.a) as u64 * c.a as u64 / 255) as u32;
    assert(w == blend_weight(s, c));
    let r = Accum {
        r: s.r + channel_gain(w, c.r),
        g: s.g + channel_gain(w, c.g),
        b: s.b + channel_gain(w, c.b),
        a: s.a + w,
    };
    r
}

/// Once a prefix has reached the threshold, longer prefixes gather the same.
proof fn lemma_saturated_stays(samples: Seq<Rgba8>, threshold: u32, i: int, j: int)
    requires
        1 <= i <= j <= samples.len(),
        composite(samples.subrange(0, i), threshold).a >= threshold,
    ensures
        composite(samples.subrange(0, j), threshold) == composite(samples.subrange(0, i), threshold),
    decreases j - i,
{
    if j > i {
        lemma_saturated_stays(samples, threshold, i, j - 1);
        assert(samples.subrange(0, j).drop_last() =~= samples.subrange(0, j - 1));
    }
}

/// Stopping a ray once its opacity reaches the threshold gives exactly what
/// marching on would: after the prefix that saturates, any `k` further samples
/// leave the result unchanged.
pub proof fn lemma_early_termination(samples: Seq<Rgba8>, threshold: u32, n: int, k: int)
    requires
        1 <= n,
        0 <= k,
        n + k <= samples.len(),
        composite(samples.subrange(0, n), threshold).a >= threshold,
    ensures
        composite(samples.subrange(0, n + k), threshold) == composite(samples.subrange(0, n), threshold),
{
    lemma_saturated_stays(samples, threshold, n, n + k);
}

/// Gathers the samples of one ray, nearest first, stopping as soon as the
/// opacity reaches `threshold`.
pub fn composite_samples(samples: &Vec<Rgba8>, threshold: u32) -> (r: Accum)
    ensures
        r == composite(samples@, threshold),
        r.wf(),
{
    let mut acc = Accum { r: 0, g: 0, b: 0, a: 0 };
    let mut i: usize = 0;
    while i < samples.len()
        invariant_except_break
            i >= 1 ==> acc.a < threshold,
        invariant
            i <= samples@.len(),
            acc == composite(samples@.subrange(0, i as int), threshold),
            acc.wf(),
        ensures
            i <= samples@.len(),
            acc == composite(samples@.subrange(0, i as int), threshold),
            acc.wf(),
            i < samples@.len() ==> i >= 1 && acc.a >= threshold,
        decreases samples@.len() - i,
    {
        proof {
            assert(samples@.subrange(0, i + 1).drop_last() =~= samples@.subrange(0, i as int));
        }
        acc = blend_sample(acc, samples[i]);
        i += 1;
        if acc.a >= threshold {
            break;
        }
    }
    proof {
        if i < samples@.len() {
            lemma_saturated_stays(samples@, threshold, i as int, samples@.len() as int);
        }
        assert(samples@.subrange(0, samples@.len() as int) =~= samples@);
    }
    acc
}

/// A gathered value as an 8-bit color, 255 standing for one.
pub open spec fn to_rgba8(s: Accum) -> Rgba8 {
    Rgba8 {
        r: (s.r * 255 / FIXED_ONE as int) as u8,
        g: (s.g * 255 / FIXED_ONE as int) as u8,
        b: (s.b * 255 / FIXED_ONE as int) as u8,
        a: (s.a * 255 / FIXED_ONE as int) as u8,
    }
}

fn to_u8_channel(v: u32) -> (r: u8)
    requires
        v <= FIXED_ONE,
    ensures
        r == (v * 255 / FIXED_ONE as int) as u8,
        r as int == v * 255 / FIXED_ONE as int,
{
    proof {
        assert(v * 255 / FIXED_ONE as int <= 255) by (nonlinear_arith)
            requires
                v <= FIXED_ONE,
        ;
    }
    ((v as u64) * 255 / FIXED_ONE as u64) as u8
}

/// The final color of a pixel.
pub fn accum_to_rgba8(s: Accum) -> (r: Rgba8)
    requires
        s.wf(),
    ensures
        r == to_rgba8(s),
{
    Rgba8 { r: to_u8_channel(s.r), g: to_u8_channel(s.g), b: to_u8_channel(s.b), a: to_u8_channel(s.a) }
}

/// The squared distance between two points, in units of `1 / FIXED_ONE^2`.
pub open spec fn squared_distance(a: VolumePoint, b: VolumePoint) -> int {
    let (dx, dy, dz) = (b.x - a.x, b.y - a.y, b.z - a.z);
    dx * dx + dy * dy + dz * dz
}

/// `r` is the square root of `n`, rounded down.
pub open spec fn is_floor_sqrt(r: int, n: int) -> bool {
    0 <= r && r * r <= n < (r + 1) * (r + 1)
}

/// The length of the ray from `entry` to `exit`, rounded down, in units of
/// `1 / FIXED_ONE`.
pub open spec fn ray_length_spec(entry: VolumePoint, exit: VolumePoint) -> int {
    choose|r: int| is_floor_sqrt(r, squared_distance(entry, exit))
}

proof fn lemma_floor_sqrt_unique(r: int, q: int, n: int)
    requires
        is_floor_sqrt(r, n),
        is_floor_sqrt(q, n),
    ensures
        r == q,
{
    if r < q {
        assert((r + 1) * (r + 1) <= q * q) by (nonlinear_arith)
            requires
                0 <= r < q,
        ;
    } else if q < r {
        assert((q + 1) * (q + 1) <= r * r) by (nonlinear_arith)
            requires
                0 <= q < r,
        ;
    }
}

/// The square root of `n`, rounded down.
pub fn floor_sqrt(n: u64) -> (r: u64)
    ensures
        is_floor_sqrt(r as int, n as int),
{
    let mut lo: u64 = 0;
    let mut hi: u64 = 0x1_0000_0000;
    assert(hi * hi > n) by (nonlinear_arith)
        requires
            hi == 0x1_0000_0000,
            n <= u64::MAX,
    ;
    while hi - lo > 1
        invariant
            lo < hi <= 0x1_0000_0000,
            lo * lo <= n,
            n < hi * hi,
        decreases hi - lo,
    {
        let mid: u64 = lo + (hi - lo) / 2;
        assert(mid * mid <= 0x1_0000_0000 * 0x1_0000_0000) by (nonlinear_arith)
            requires
                mid < 0x1_0000_0000,
        ;
        if (mid as u128) * (mid as u128) <= n as u128 {
            lo = mid;
        } else {
            hi = mid;
        }
    }
    assert(hi == lo + 1);
    lo
}

/// Squares of coordinate differences, summed, fit in 64 bits.
proof fn lemma_squared_distance_bound(a: VolumePoint, b: VolumePoint)
    requires
        a.in_unit_cube(),
        b.in_unit_cube(),
    ensures
        0 <= squared_distance(a, b) <= 3 * FIXED_ONE * FIXED_ONE,
{
    let one = FIXED_ONE as int;
    let (dx, dy, dz) = (b.x - a.x, b.y - a.y, b.z - a.z);
    assert(0 <= dx * dx <= one * one) by (nonlinear_arith)
        requires
            -one <= dx <= one,
    ;
    assert(0 <= dy * dy <= one * one) by (nonlinear_arith)
        requires
            -one <= dy <= one,
    ;
    assert(0 <= dz * dz <= one * one) by (nonlinear_arith)
        requires
            -one <= dz <= one,
    ;
}

fn abs_diff(a: u32, b: u32) -> (r: u64)
    ensures
        r == if a <= b { b - a } else { a - b },
{
    if a <= b {
        (b - a) as u64
    } else {
        (a - b) as u64
    }
}

/// The length of the ray between two points of the unit cube, rounded down:
/// never negative, and positive whenever the points differ.
pub fn ray_length(entry: VolumePoint, exit: VolumePoint) -> (r: u64)
    requires
        entry.in_unit_cube(),
        exit.in_unit_cube(),
    ensures
        r == ray_length_spec(entry, exit),
        is_floor_sqrt(r as int, squared_distance(entry, exit)),
        r <= 2 * FIXED_ONE,
        entry != exit ==> r > 0,
{
    proof {
        lemma_squared_distance_bound(entry, exit);
    }
    let dx = abs_diff(entry.x, exit.x);
    let dy = abs_diff(entry.y, exit.y);
    let dz = abs_diff(entry.z, exit.z);
    proof {
        assert(dx * dx + dy * dy + dz * dz == squared_distance(entry, exit)) by (nonlinear_arith)
            requires
                dx == (if entry.x <= exit.x { exit.x - entry.x } else { entry.x - exit.x }),
                dy == (if entry.y <= exit.y { exit.y - entry.y } else { entry.y - exit.y }),
                dz == (if entry.z <= exit.z { exit.z - entry.z } else { entry.z - exit.z }),
        ;
        assert(dx * dx <= FIXED_ONE * FIXED_ONE) by (nonlinear_arith)
            requires
                dx <= FIXED_ONE,
        ;
        assert(dy * dy <= FIXED_ONE * FIXED_ONE) by (nonlinear_arith)
            requires
                dy <= FIXED_ONE,
        ;
        assert(dz * dz <= FIXED_ONE * FIXED_ONE) by (nonlinear_arith)
            requires
                dz <= FIXED_ONE,
        ;
    }
    let sq: u64 = dx * dx + dy * dy + dz * dz;
    let r = floor_sqrt(sq);
    proof {
        let q = choose|q: int| is_floor_sqrt(q, squared_distance(entry, exit));
        lemma_floor_sqrt_unique(r as int, q, sq as int);
        assert(r <= 2 * FIXED_ONE) by (nonlinear_arith)
            requires
                r * r <= sq,
                sq <= 3 * FIXED_ONE * FIXED_ONE,
        ;
        if entry != exit {
            assert(sq > 0) by (nonlinear_arith)
                requires
                    dx != 0 || dy != 0 || dz != 0,
                    sq == dx * dx + dy * dy + dz * dz,
            ;
        }
    }
    r
}

/// How many samples a ray of length `len` takes: those at distances
/// `base + k * step` short of `len`.
pub open spec fn sample_count(len: int, base: int, step: int) -> int {
    if base >= len {
        0
    } else {
        (len - base - 1) / step + 1
    }
}

proof fn lemma_sample_count(len: int, base: int, step: int, k: int)
    requires
        0 <= base,
        step > 0,
        0 <= k,
    ensures
        base + k * step < len <==> k < sample_count(len, base, step),
{
    if base < len {
        let m = len - base - 1;
        assert(k * step <= m <==> k <= m / step) by (nonlinear_arith)
            requires
                step > 0,
                m >= 0,
                k >= 0,
        {
            if k * step <= m {
                assert(k <= m / step) by (nonlinear_arith)
                    requires
                        step > 0,
                        k * step <= m,
                        k >= 0,
                ;
            }
            if k <= m / step {
                assert(k * step <= (m / step) * step) by (nonlinear_arith)
                    requires
                        step > 0,
                        k <= m / step,
                        k >= 0,
                ;
            }
        }
    } else {
        assert(k * step >= 0) by (nonlinear_arith)
            requires
                k >= 0,
                step > 0,
        ;
    }
}

/// The coordinate at distance `t` from `e` towards `x` along a ray of length
/// `len`, rounded towards `e`.
pub open spec fn axis_point(e: int, x: int, t: int, len: int) -> int {
    if e <= x {
        e + (x - e) * t / len
    } else {
        e - (e - x) * t / len
    }
}

/// The point at distance `t` along the ray from `entry` to `exit`.
pub open spec fn point_at(entry: VolumePoint, exit: VolumePoint, t: int, len: int) -> VolumePoint {
    VolumePoint {
        x: axis_point(entry.x as int, exit.x as int, t, len) as u32,
        y: axis_point(entry.y as int, exit.y as int, t, len) as u32,
        z: axis_point(entry.z as int, exit.z as int, t, len) as u32,
    }
}

proof fn lemma_axis_point_between(e: int, x: int, t: int, len: int)
    requires
        0 <= e <= FIXED_ONE,
        0 <= x <= FIXED_ONE,
        0 <= t < len,
    ensures
        0 <= axis_point(e, x, t, len) <= FIXED_ONE,
{
    if e <= x {
        assert(0 <= (x - e) * t / len <= x - e) by (nonlinear_arith)
            requires
                0 <= x - e,
                0 <= t < len,
        {
            assert((x - e) * t <= (x - e) * len);
        }
    } else {
        assert(0 <= (e - x) * t / len <= e - x) by (nonlinear_arith)
            requires
                0 <= e - x,
                0 <= t < len,
        {
            assert((e - x) * t <= (e - x) * len);
        }
    }
}

fn axis_point_exec(e: u32, x: u32, t: u64, len: u64) -> (r: u32)
    requires
        e <= FIXED_ONE,
        x <= FIXED_ONE,
        t < len <= 2 * FIXED_ONE,
    ensures
        r as int == axis_point(e as int, x as int, t as int, len as int),
        r <= FIXED_ONE,
{
    proof {
        lemma_axis_point_between(e as int, x as int, t as int, len as int);
    }
    if e <= x {
        assert((x - e) as u64 * t <= 2_000_000_000_000) by (nonlinear_arith)
            requires
                0 <= x - e <= 1_000_000,
                0 <= t <= 2_000_000,
        ;
        e + (((x - e) as u64 * t) / len) as u32
    } else {
        assert((e - x) as u64 * t <= 2_000_000_000_000) by (nonlinear_arith)
            requires
                0 <= e - x <= 1_000_000,
                0 <= t <= 2_000_000,
        ;
        e - (((e - x) as u64 * t) / len) as u32
    }
}

fn point_at_exec(entry: VolumePoint, exit: VolumePoint, t: u64, len: u64) -> (r: VolumePoint)
    requires
        entry.in_unit_cube(),
        exit.in_unit_cube(),
        t < len <= 2 * FIXED_ONE,
    ensures
        r == point_at(entry, exit, t as int, len as int),
        r.in_unit_cube(),
{
    VolumePoint {
        x: axis_point_exec(entry.x, exit.x, t, len),
        y: axis_point_exec(entry.y, exit.y, t, len),
        z: axis_point_exec(entry.z, exit.z, t, len),
    }
}

/// The color and opacity the transfer function gives the volume at `p`.
pub open spec fn classify(vol: Volume, lut: Seq<Rgba8>, p: VolumePoint) -> Rgba8 {
    sample_lut_spec(lut, trilinear(vol, p))
}

/// The samples along the ray from `entry` to `exit`, nearest first: the
/// first at `base_distance`, then one every `step_size`, while short of the
/// exit.
pub open spec fn ray_samples(
    vol: Volume,
    lut: Seq<Rgba8>,
    entry: VolumePoint,
    exit: VolumePoint,
    u: CanvasShaderUniforms,
) -> Seq<Rgba8> {
    let len = ray_length_spec(entry, exit);
    let n = sample_count(len, u.base_distance as int, u.step_size as int);
    Seq::new(
        n as nat,
        |k: int|
            classify(vol, lut, point_at(entry, exit, u.base_distance + k * u.step_size, len)),
    )
}

/// The entry and exit value of a pixel whose ray misses the cube.
pub open spec fn sentinel() -> VolumePoint {
    VolumePoint { x: 0, y: 0, z: 0 }
}

/// The fully transparent color.
pub open spec fn transparent() -> Rgba8 {
    Rgba8 { r: 0, g: 0, b: 0, a: 0 }
}

/// The color of a pixel: fully transparent where the ray misses the cube,
/// else what the ray gathers from its samples.
pub open spec fn march_spec(
    vol: Volume,
    lut: Seq<Rgba8>,
    entry: VolumePoint,
    exit: VolumePoint,
    u: CanvasShaderUniforms,
) -> Rgba8 {
    if entry == sentinel() && exit == sentinel() {
        transparent()
    } else {
        to_rgba8(composite(ray_samples(vol, lut, entry, exit, u), u.opacity_threshold))
    }
}

/// Marches the ray of one pixel from its entry to its exit point through the
/// volume and returns the pixel's color.
pub fn march_pixel(
    vol: &Volume,
    lut: &Vec<Rgba8>,
    entry: VolumePoint,
    exit: VolumePoint,
    u: &CanvasShaderUniforms,
) -> (r: Rgba8)
    requires
        vol.wf(),
        lut@.len() == LUT_SIZE,
        entry.in_unit_cube(),
        exit.in_unit_cube(),
        u.step_size > 0,
    ensures
        r == march_spec(*vol, lut@, entry, exit, *u),
        entry == sentinel() && exit == sentinel() ==> r == transparent(),
{
    if entry.x == 0 && entry.y == 0 && entry.z == 0 && exit.x == 0 && exit.y == 0 && exit.z == 0 {
        return Rgba8 { r: 0, g: 0, b: 0, a: 0 };
    }
    let len = ray_length(entry, exit);
    let ghost samples = ray_samples(*vol, lut@, entry, exit, *u);
    let ghost n = sample_count(len as int, u.base_distance as int, u.step_size as int);
    let threshold = u.opacity_threshold;
    let mut acc = Accum { r: 0, g: 0, b: 0, a: 0 };
    let mut t: u64 = u.base_distance as u64;
    let ghost mut k: int = 0;
    proof {
        lemma_sample_count(len as int, u.base_distance as int, u.step_size as int, 0);
    }
    while t < len
        invariant_except_break
            k >= 1 ==> acc.a < threshold,
        invariant
            vol.wf(),
            lut@.len() == LUT_SIZE,
            entry.in_unit_cube(),
            exit.in_unit_cube(),
            u.step_size > 0,
            len == ray_length_spec(entry, exit),
            len <= 2 * FIXED_ONE,
            threshold == u.opacity_threshold,
            samples == ray_samples(*vol, lut@, entry, exit, *u),
            n == sample_count(len as int, u.base_distance as int, u.step_size as int),
            samples.len() == n,
            0 <= k <= n,
            t == u.base_distance + k * u.step_size,
            t < len <==> k < n,
            acc == composite(samples.subrange(0, k), threshold),
            acc.wf(),
        ensures
            0 <= k <= n,
            acc == composite(samples.subrange(0, k), threshold),
            acc.wf(),
            k < n ==> k >= 1 && acc.a >= threshold,
        decreases n - k,
    {
        let p = point_at_exec(entry, exit, t, len);
        let d = vol.sample(p);
        let c = sample_lut(lut, d);
        proof {
            assert(c == samples[k]);
            assert(samples.subrange(0, k + 1).drop_last() =~= samples.subrange(0, k));
        }
        acc = blend_sample(acc, c);
        t = t + u.step_size as u64;
        proof {
            k = k + 1;
            assert(t == u.base_distance + k * u.step_size) by (nonlinear_arith)
                requires
                    t == u.base_distance + (k - 1) * u.step_size + u.step_size,
            ;
            lemma_sample_count(len as int, u.base_distance as int, u.step_size as int, k);
        }
        if acc.a >= threshold {
            break;
        }
    }
    proof {
        if k < n {
            lemma_saturated_stays(samples, threshold, k, n);
        }
        assert(samples.subrange(0, n) =~= samples);
    }
    accum_to_rgba8(acc)
}

/// Every point a ray samples lies in the unit cube.
proof fn lemma_ray_points_in_cube(entry: VolumePoint, exit: VolumePoint, u: CanvasShaderUniforms, k: int)
    requires
        entry.in_unit_cube(),
        exit.in_unit_cube(),
        u.step_size > 0,
        0 <= k < sample_count(ray_length_spec(entry, exit), u.base_distance as int, u.step_size as int),
    ensures
        point_at(entry, exit, u.base_distance + k * u.step_size, ray_length_spec(entry, exit)).in_unit_cube(),
{
    let len = ray_length_spec(entry, exit);
    let t = u.base_distance + k * u.step_size;
    lemma_sample_count(len, u.base_distance as int, u.step_size as int, k);
    assert(0 <= k * u.step_size) by (nonlinear_arith)
        requires
            0 <= k,
            u.step_size > 0,
    ;
    lemma_axis_point_between(entry.x as int, exit.x as int, t, len);
    lemma_axis_point_between(entry.y as int, exit.y as int, t, len);
    lemma_axis_point_between(entry.z as int, exit.z as int, t, len);
}

/// A fully transparent sample changes nothing.
proof fn lemma_blend_clear_sample(s: Accum, c: Rgba8)
    requires
        s.wf(),
        c.a == 0,
    ensures
        blend(s, c) == s,
{
    assert(blend_weight(s, c) == 0) by (nonlinear_arith)
        requires
            c.a == 0,
            blend_weight(s, c) == (FIXED_ONE - s.a) * c.a / 255,
    ;
    assert(0 * c.r / 255 == 0 && 0 * c.g / 255 == 0 && 0 * c.b / 255 == 0) by (nonlinear_arith);
}

/// Samples that are all fully transparent gather nothing.
proof fn lemma_clear_samples(samples: Seq<Rgba8>, threshold: u32)
    requires
        forall|i: int| 0 <= i < samples.len() ==> (#[trigger] samples[i]).a == 0,
    ensures
        composite(samples, threshold) == clear_accum(),
    decreases samples.len(),
{
    if samples.len() > 1 {
        lemma_clear_samples(samples.drop_last(), threshold);
        assert(samples.last().a == 0);
        lemma_blend_clear_sample(clear_accum(), samples.last());
    } else if samples.len() == 1 {
        assert(samples[0].a == 0);
        lemma_blend_clear_sample(clear_accum(), samples[0]);
    }
}

/// A table whose entries all have zero opacity gives zero opacity wherever
/// it is sampled within the density range.
proof fn lemma_clear_table_sample(lut: Seq<Rgba8>, d: int)
    requires
        lut.len() == LUT_SIZE,
        forall|i: int| 0 <= i < lut.len() ==> (#[trigger] lut[i]).a == 0,
        0 <= d <= 65535,
    ensures
        sample_lut_spec(lut, d).a == 0,
{
    let t = d * 255;
    let i = t / 65535;
    assert(0 <= i <= 255) by (nonlinear_arith)
        requires
            t == d * 255,
            0 <= d <= 65535,
            i == t / 65535,
    ;
    assert(lut[i].a == 0);
    let j = if i + 1 < lut.len() { i + 1 } else { i };
    assert(lut[j].a == 0);
    let frac = t % 65535;
    assert((0 * (65535 - frac) + 0 * frac) / 65535 == 0) by (nonlinear_arith);
}

/// A transfer function whose control points are all fully transparent
/// renders every pixel fully transparent, whatever the volume holds.
pub proof fn lemma_transparent_transfer_function(
    pts: Seq<ControlPoint>,
    vol: Volume,
    entry: VolumePoint,
    exit: VolumePoint,
    u: CanvasShaderUniforms,
)
    requires
        points_wf(pts),
        forall|i: int| 0 <= i < pts.len() ==> (#[trigger] pts[i]).color.a == 0,
        vol.wf(),
        entry.in_unit_cube(),
        exit.in_unit_cube(),
        u.step_size > 0,
    ensures
        march_spec(vol, lut_spec(pts), entry, exit, u) == transparent(),
{
    let lut = lut_spec(pts);
    assert forall|x: int| 0 <= x < lut.len() implies (#[trigger] lut[x]).a == 0 by {
        if x <= pts[0].position {
        } else if x >= pts.last().position {
            assert(pts.last().color.a == 0);
        } else {
            crate::transfer::lemma_segment_exists(pts, x);
            let k = choose|k: int| crate::transfer::in_segment(pts, k, x);
            assert(pts[k].color.a == 0);
            assert(pts[k + 1].color.a == 0);
            let (p0, p1) = (pts[k].position as int, pts[k + 1].position as int);
            assert((0 * (p1 - x) + 0 * (x - p0)) / (p1 - p0) == 0) by (nonlinear_arith)
                requires
                    p1 > p0,
            ;
        }
    }
    let samples = ray_samples(vol, lut, entry, exit, u);
    let len = ray_length_spec(entry, exit);
    assert forall|k: int| 0 <= k < samples.len() implies (#[trigger] samples[k]).a == 0 by {
        lemma_ray_points_in_cube(entry, exit, u, k);
        let p = point_at(entry, exit, u.base_distance + k * u.step_size, len);
        lemma_trilinear_bounds(vol, p);
        lemma_clear_table_sample(lut, trilinear(vol, p));
    }
    lemma_clear_samples(samples, u.opacity_threshold);
}

/// With an opacity threshold of zero, a ray that takes any sample stops after
/// its first: the pixel is that one sample's premultiplied color.
pub proof fn lemma_zero_threshold_single_sample(
    vol: Volume,
    lut: Seq<Rgba8>,
    entry: VolumePoint,
    exit: VolumePoint,
    u: CanvasShaderUniforms,
)
    requires
        u.opacity_threshold == 0,
        !(entry == sentinel() && exit == sentinel()),
        ray_samples(vol, lut, entry, exit, u).len() >= 1,
    ensures
        march_spec(vol, lut, entry, exit, u) == to_rgba8(
            blend(clear_accum(), ray_samples(vol, lut, entry, exit, u)[0]),
        ),
{
    let samples = ray_samples(vol, lut, entry, exit, u);
    assert(samples.subrange(0, 1).len() == 1);
    assert(samples.subrange(0, 1)[0] == samples[0]);
    lemma_saturated_stays(samples, 0, 1, samples.len() as int);
    assert(samples.subrange(0, samples.len() as int) =~= samples);
}

/// The composite pass over a whole frame: pixel `i` of the output is the
/// march of the ray from `entries[i]` to `exits[i]`.
pub open spec fn composite_frame_spec(
    vol: Volume,
    lut: Seq<Rgba8>,
    entries: Seq<VolumePoint>,
    exits: Seq<VolumePoint>,
    u: CanvasShaderUniforms,
) -> Seq<Rgba8> {
    Seq::new(entries.len(), |i: int| march_spec(vol, lut, entries[i], exits[i], u))
}

/// Runs the composite pass over a frame, given the entry and exit texture of
/// each pixel.
pub fn composite_frame(
    vol: &Volume,
    lut: &Vec<Rgba8>,
    entries: &Vec<VolumePoint>,
    exits: &Vec<VolumePoint>,
    u: &CanvasShaderUniforms,
) -> (r: Vec<Rgba8>)
    requires
        vol.wf(),
        lut@.len() == LUT_SIZE,
        entries@.len() == exits@.len(),
        forall|i: int| 0 <= i < entries@.len() ==> (#[trigger] entries@[i]).in_unit_cube(),
        forall|i: int| 0 <= i < exits@.len() ==> (#[trigger] exits@[i]).in_unit_cube(),
        u.step_size > 0,
    ensures
        r@ == composite_frame_spec(*vol, lut@, entries@, exits@, *u),
{
    let mut out: Vec<Rgba8> = Vec::new();
    let mut i: usize = 0;
    while i < entries.len()
        invariant
            vol.wf(),
            lut@.len() == LUT_SIZE,
            entries@.len() == exits@.len(),
            forall|j: int| 0 <= j < entries@.len() ==> (#[trigger] entries@[j]).in_unit_cube(),
            forall|j: int| 0 <= j < exits@.len() ==> (#[trigger] exits@[j]).in_unit_cube(),
            u.step_size > 0,
            i <= entries@.len(),
            out@ == composite_frame_spec(*vol, lut@, entries@, exits@, *u).subrange(0, i as int),
        decreases entries@.len() - i,
    {
        let c = march_pixel(vol, lut, entries[i], exits[i], u);
        out.push(c);
        proof {
            assert(out@ =~= composite_frame_spec(*vol, lut@, entries@, exits@, *u).subrange(0, i + 1));
        }
        i += 1;
    }
    assert(out@ =~= composite_frame_spec(*vol, lut@, entries@, exits@, *u));
    out
}

/// Rendering is deterministic: two frames composited from the same volume,
/// table, entry and exit textures and uniforms are identical, pixel for
/// pixel; and every pixel whose ray misses the cube is fully transparent.
pub proof fn lemma_frame_deterministic(
    vol: Volume,
    lut: Seq<Rgba8>,
    entries: Seq<VolumePoint>,
    exits: Seq<VolumePoint>,
    u: CanvasShaderUniforms,
    first: Seq<Rgba8>,
    second: Seq<Rgba8>,
)
    requires
        first == composite_frame_spec(vol, lut, entries, exits, u),
        second == composite_frame_spec(vol, lut, entries, exits, u),
    ensures
        first == second,
        forall|i: int|
            0 <= i < first.len() && entries[i] == sentinel() && exits[i] == sentinel() ==> #[trigger] first[i]
                == transparent(),
{
}

} // verus!
