//! The transfer function: ordered control points mapping density to color and
//! opacity, resampled into a lookup table of `LUT_SIZE` RGBA entries, and
//! sampled by density with linear filtering.
//!
//! Control-point positions are in units of `1 / 255`, so that every control
//! point falls exactly on an entry of the table; densities are in units of
//! `1 / 65535`.
use vstd::prelude::*;

verus! {

/// An RGBA color with 8-bit channels, 255 standing for 1.0.
#[derive(Clone, Copy, Debug, PartialEq, Eq, Structural)]
pub struct Rgba8 {
    pub r: u8,
    pub g: u8,
    pub b: u8,
    pub a: u8,
}

/// A color the transfer function passes through at `position / 255`.
#[derive(Clone, Copy, Debug, PartialEq, Eq, Structural)]
pub struct ControlPoint {
    pub position: u8,
    pub color: Rgba8,
}

/// Number of entries of the lookup table: entry `i` holds the color at
/// position `i / 255`.
pub const LUT_SIZE: usize = 256;

/// The density, in units of `1 / 65535`, at which entry `i` of the table lies.
pub open spec fn density_of_position(p: int) -> int {
    p * 257
}

/// A usable transfer function: at least one point, positions strictly
/// increasing.
pub open spec fn points_wf(pts: Seq<ControlPoint>) -> bool {
    &&& pts.len() >= 1
    &&& forall|i: int, j: int| 0 <= i < j < pts.len() ==> pts[i].position < pts[j].position
}

/// One channel, linearly interpolated between `c0` at `p0` and `c1` at `p1`,
/// at `x` (with `p0 <= x <= p1`, `p0 < p1`), rounded down.
pub open spec fn lerp_channel(c0: u8, c1: u8, p0: int, p1: int, x: int) -> u8 {
    ((c0 * (p1 - x) + c1 * (x - p0)) / (p1 - p0)) as u8
}

pub open spec fn lerp_color(a: ControlPoint, b: ControlPoint, x: int) -> Rgba8 {
    let (p0, p1) = (a.position as int, b.position as int);
    Rgba8 {
        r: lerp_channel(a.color.r, b.color.r, p0, p1, x),
        g: lerp_channel(a.color.g, b.color.g, p0, p1, x),
        b: lerp_channel(a.color.b, b.color.b, p0, p1, x),
        a: lerp_channel(a.color.a, b.color.a, p0, p1, x),
    }
}

/// Segment `k` (between points `k` and `k + 1`) holds `x`.
pub open spec fn in_segment(pts: Seq<ControlPoint>, k: int, x: int) -> bool {
    0 <= k < pts.len() - 1 && pts[k].position <= x < pts[k + 1].position
}

/// The transfer function's color at position `x / 255`: the first point's
/// color up to it, the last point's from it on, and the linear blend of the
/// two points around `x` in between.
pub open spec fn tf_color(pts: Seq<ControlPoint>, x: int) -> Rgba8 {
    if x <= pts[0].position {
        pts[0].color
    } else if x >= pts.last().position {
        pts.last().color
    } else {
        let k = choose|k: int| in_segment(pts, k, x);
        lerp_color(pts[k], pts[k + 1], x)
    }
}

/// The lookup table built from the control points.
pub open spec fn lut_spec(pts: Seq<ControlPoint>) -> Seq<Rgba8> {
    Seq::new(LUT_SIZE as nat, |i: int| tf_color(pts, i))
}

/// A blend of two channel values lies between them.
proof fn lemma_lerp_bounds(c0: u8, c1: u8, p0: int, p1: int, x: int)
    requires
        p0 <= x <= p1,
        p0 < p1,
    ensures
        0 <= (c0 * (p1 - x) + c1 * (x - p0)) / (p1 - p0) <= 255,
{
    let num = c0 * (p1 - x) + c1 * (x - p0);
    assert(0 <= num) by (nonlinear_arith)
        requires
            p0 <= x <= p1,
            0 <= c0,
            0 <= c1,
            num == c0 * (p1 - x) + c1 * (x - p0),
    ;
    assert(num <= 255 * (p1 - p0)) by (nonlinear_arith)
        requires
            p0 <= x <= p1,
            c0 <= 255,
            c1 <= 255,
            num == c0 * (p1 - x) + c1 * (x - p0),
    ;
    assert(num / (p1 - p0) <= 255) by (nonlinear_arith)
        requires
            0 <= num <= 255 * (p1 - p0),
            p1 - p0 > 0,
    ;
}

fn lerp_channel_exec(c0: u8, c1: u8, p0: u8, p1: u8, x: u8) -> (r: u8)
    requires
        p0 <= x <= p1,
        p0 < p1,
    ensures
        r == lerp_channel(c0, c1, p0 as int, p1 as int, x as int),
{
    proof {
        lemma_lerp_bounds(c0, c1, p0 as int, p1 as int, x as int);
        assert((c0 as u32) * ((p1 - x) as u32) <= 255 * 255) by (nonlinear_arith)
            requires
                c0 <= 255,
                0 <= p1 - x <= 255,
        ;
        assert((c1 as u32) * ((x - p0) as u32) <= 255 * 255) by (nonlinear_arith)
            requires
                c1 <= 255,
                0 <= x - p0 <= 255,
        ;
    }
    let num: u32 = (c0 as u32) * ((p1 - x) as u32) + (c1 as u32) * ((x - p0) as u32);
    (num / ((p1 - p0) as u32)) as u8
}

fn lerp_color_exec(a: ControlPoint, b: ControlPoint, x: u8) -> (r: Rgba8)
    requires
        a.position <= x <= b.position,
        a.position < b.position,
    ensures
        r == lerp_color(a, b, x as int),
{
    let (p0, p1) = (a.position, b.position);
    Rgba8 {
        r: lerp_channel_exec(a.color.r, b.color.r, p0, p1, x),
        g: lerp_channel_exec(a.color.g, b.color.g, p0, p1, x),
        b: lerp_channel_exec(a.color.b, b.color.b, p0, p1, x),
        a: lerp_channel_exec(a.color.a, b.color.a, p0, p1, x),
    }
}

/// A position strictly between the first and last points lies in some
/// segment.
pub proof fn lemma_segment_exists(pts: Seq<ControlPoint>, x: int) -> (k: int)
    requires
        points_wf(pts),
        pts[0].position < x < pts.last().position,
    ensures
        in_segment(pts, k, x),
    decreases pts.len(),
{
    if pts.len() == 2 {
        0
    } else if x < pts[1].position {
        0
    } else {
        let rest = pts.drop_first();
        assert(points_wf(rest)) by {
            assert forall|i: int, j: int| 0 <= i < j < rest.len() implies rest[i].position < rest[j].position by {
                assert(pts[i + 1].position < pts[j + 1].position);
            }
        }
        assert(rest.last() == pts.last());
        if x == pts[1].position {
            assert(pts[1].position < pts[2].position);
            1
        } else {
            let k = lemma_segment_exists(rest, x);
            k + 1
        }
    }
}

/// With increasing positions, at most one segment holds a position.
proof fn lemma_segment_unique(pts: Seq<ControlPoint>, k: int, j: int, x: int)
    requires
        points_wf(pts),
        in_segment(pts, k, x),
        in_segment(pts, j, x),
    ensures
        k == j,
{
    if k < j {
        assert(pts[k + 1].position <= pts[j].position) by {
            if k + 1 < j {
                assert(pts[k + 1].position < pts[j].position);
            }
        }
    } else if j < k {
        assert(pts[j + 1].position <= pts[k].position) by {
            if j + 1 < k {
                assert(pts[j + 1].position < pts[k].position);
            }
        }
    }
}

/// Resamples the control points into a table of `LUT_SIZE` entries, entry `i`
/// holding the transfer function's color at position `i / 255`.
pub fn build_lut(points: &Vec<ControlPoint>) -> (r: Vec<Rgba8>)
    requires
        points_wf(points@),
    ensures
        r@ == lut_spec(points@),
{
    let pts = points;
    let n = pts.len();
    let last = pts[n - 1];
    let mut out: Vec<Rgba8> = Vec::new();
    let mut k: usize = 0;
    let mut i: usize = 0;
    while i < LUT_SIZE
        invariant
            points_wf(pts@),
            n == pts@.len(),
            last == pts@.last(),
            i <= LUT_SIZE,
            k < n,
            k == 0 || pts@[k as int].position <= i,
            out@ == lut_spec(pts@).subrange(0, i as int),
        decreases LUT_SIZE - i,
    {
        let x: u8 = i as u8;
        while k + 1 < n && pts[k + 1].position <= x
            invariant
                points_wf(pts@),
                n == pts@.len(),
                k < n,
                k == 0 || pts@[k as int].position <= x,
            decreases n - k,
        {
            k += 1;
        }
        let c = if x <= pts[0].position {
            pts[0].color
        } else if x >= last.position {
            last.color
        } else {
            proof {
                if k == 0 {
                    assert(pts@[0].position <= x);
                }
                assert(k + 1 < n) by {
                    if k + 1 >= n {
                        assert(k == n - 1);
                    }
                }
                assert(in_segment(pts@, k as int, x as int));
                let kk = choose|kk: int| in_segment(pts@, kk, x as int);
                lemma_segment_unique(pts@, k as int, kk, x as int);
            }
            lerp_color_exec(pts[k], pts[k + 1], x)
        };
        out.push(c);
        proof {
            assert(out@ =~= lut_spec(pts@).subrange(0, i + 1));
        }
        i += 1;
    }
    assert(out@ =~= lut_spec(pts@));
    out
}

/// One channel of the table sampled with linear filtering at density `d`:
/// the two entries around `d * 255 / 65535`, weighted by the remainder.
pub open spec fn filtered_channel(c0: u8, c1: u8, frac: int) -> u8 {
    ((c0 * (65535 - frac) + c1 * frac) / 65535) as u8
}

/// The table sampled at density `d / 65535` with linear filtering between
/// neighbouring entries.
pub open spec fn sample_lut_spec(lut: Seq<Rgba8>, d: int) -> Rgba8 {
    let t = d * 255;
    let i = t / 65535;
    let frac = t % 65535;
    let j = if i + 1 < lut.len() { i + 1 } else { i };
    let (a, b) = (lut[i], lut[j]);
    Rgba8 {
        r: filtered_channel(a.r, b.r, frac),
        g: filtered_channel(a.g, b.g, frac),
        b: filtered_channel(a.b, b.b, frac),
        a: filtered_channel(a.a, b.a, frac),
    }
}

fn filtered_channel_exec(c0: u8, c1: u8, frac: u32) -> (r: u8)
    requires
        frac < 65535,
    ensures
        r == filtered_channel(c0, c1, frac as int),
{
    proof {
        assert((c0 as u32) * (65535 - frac) + (c1 as u32) * frac <= 255 * 65535) by (nonlinear_arith)
            requires
                c0 <= 255,
                c1 <= 255,
                frac < 65535,
        ;
        assert(((c0 as u32) * (65535 - frac) + (c1 as u32) * frac) / 65535 <= 255) by (nonlinear_arith)
            requires
                (c0 as u32) * (65535 - frac) + (c1 as u32) * frac <= 255 * 65535,
        ;
    }
    let num: u32 = (c0 as u32) * (65535 - frac) + (c1 as u32) * frac;
    (num / 65535) as u8
}

/// Looks the density `density / 65535` up in the table, blending the two
/// nearest entries.
pub fn sample_lut(lut: &Vec<Rgba8>, density: u16) -> (r: Rgba8)
    requires
        lut@.len() == LUT_SIZE,
    ensures
        r == sample_lut_spec(lut@, density as int),
{
    let t: u32 = (density as u32) * 255;
    let i: usize = (t / 65535) as usize;
    let frac: u32 = t % 65535;
    let j: usize = if i + 1 < lut.len() { i + 1 } else { i };
    let a = lut[i];
    let b = lut[j];
    Rgba8 {
        r: filtered_channel_exec(a.r, b.r, frac),
        g: filtered_channel_exec(a.g, b.g, frac),
        b: filtered_channel_exec(a.b, b.b, frac),
        a: filtered_channel_exec(a.a, b.a, frac),
    }
}

/// The table reproduces every control point: sampled at a point's own
/// position, it gives back that point's color exactly.
pub proof fn lemma_lut_round_trip(pts: Seq<ControlPoint>, j: int)
    requires
        points_wf(pts),
        0 <= j < pts.len(),
    ensures
        sample_lut_spec(lut_spec(pts), density_of_position(pts[j].position as int)) == pts[j].color,
{
    let p = pts[j].position as int;
    let lut = lut_spec(pts);
    assert(p * 257 * 255 == p * 65535) by (nonlinear_arith);
    assert((p * 65535) / 65535 == p) by (nonlinear_arith);
    assert((p * 65535) % 65535 == 0) by (nonlinear_arith);
    assert(tf_color(pts, p) == pts[j].color) by {
        if p <= pts[0].position {
            if j > 0 {
                assert(pts[0].position < pts[j].position);
            }
        } else if p >= pts.last().position {
            if j < pts.len() - 1 {
                assert(pts[j].position < pts.last().position);
            }
        } else {
            assert(j < pts.len() - 1) by {
                if j == pts.len() - 1 {
                    assert(p >= pts.last().position);
                }
            }
            assert(pts[j].position < pts[j + 1].position);
            assert(in_segment(pts, j, p));
            let k = choose|k: int| in_segment(pts, k, p);
            lemma_segment_unique(pts, j, k, p);
            let (p0, p1) = (pts[j].position as int, pts[j + 1].position as int);
            let c = pts[j].color;
            let d = pts[j + 1].color;
            assert(((c.r * (p1 - p0) + d.r * (p0 - p0)) / (p1 - p0)) == c.r) by (nonlinear_arith)
                requires
                    p1 > p0,
            ;
            assert(((c.g * (p1 - p0) + d.g * (p0 - p0)) / (p1 - p0)) == c.g) by (nonlinear_arith)
                requires
                    p1 > p0,
            ;
            assert(((c.b * (p1 - p0) + d.b * (p0 - p0)) / (p1 - p0)) == c.b) by (nonlinear_arith)
                requires
                    p1 > p0,
            ;
            assert(((c.a * (p1 - p0) + d.a * (p0 - p0)) / (p1 - p0)) == c.a) by (nonlinear_arith)
                requires
                    p1 > p0,
            ;
        }
    }
    let e = lut[p];
    assert(e == pts[j].color);
    assert(((e.r * 65535 + e.r * 0) / 65535) == e.r) by (nonlinear_arith);
    assert(((e.g * 65535 + e.g * 0) / 65535) == e.g) by (nonlinear_arith);
    assert(((e.b * 65535 + e.b * 0) / 65535) == e.b) by (nonlinear_arith);
    assert(((e.a * 65535 + e.a * 0) / 65535) == e.a) by (nonlinear_arith);
}

pub open spec fn rgba(r: u8, g: u8, b: u8, a: u8) -> Rgba8 {
    Rgba8 { r, g, b, a }
}

/// The example transfer function: twelve colors, each channel the fraction
/// times 255, rounded down.
pub open spec fn example_tf() -> Seq<Rgba8> {
    seq![
        rgba(0, 0, 0, 0),
        rgba(0, 127, 127, 2),
        rgba(0, 127, 127, 2),
        rgba(0, 127, 127, 0),
        rgba(127, 127, 0, 0),
        rgba(127, 127, 0, 51),
        rgba(127, 127, 0, 127),
        rgba(127, 127, 0, 51),
        rgba(127, 127, 0, 0),
        rgba(0, 0, 0, 0),
        rgba(255, 0, 255, 0),
        rgba(255, 0, 255, 204),
    ]
}

/// The colors of the example transfer function, evenly spaced over the
/// density range.
pub fn load_example_transfer_function() -> (r: Vec<Rgba8>)
    ensures
        r@ == example_tf(),
{
    let r: Vec<Rgba8> = vec![
        Rgba8 { r: 0, g: 0, b: 0, a: 0 },
        Rgba8 { r: 0, g: 127, b: 127, a: 2 },
        Rgba8 { r: 0, g: 127, b: 127, a: 2 },
        Rgba8 { r: 0, g: 127, b: 127, a: 0 },
        Rgba8 { r: 127, g: 127, b: 0, a: 0 },
        Rgba8 { r: 127, g: 127, b: 0, a: 51 },
        Rgba8 { r: 127, g: 127, b: 0, a: 127 },
        Rgba8 { r: 127, g: 127, b: 0, a: 51 },
        Rgba8 { r: 127, g: 127, b: 0, a: 0 },
        Rgba8 { r: 0, g: 0, b: 0, a: 0 },
        Rgba8 { r: 255, g: 0, b: 255, a: 0 },
        Rgba8 { r: 255, g: 0, b: 255, a: 204 },
    ];
    assert(r@ =~= example_tf());
    r
}

/// Where color `i` of `n` evenly spaced colors sits, in units of `1 / 255`.
pub open spec fn even_position(i: int, n: int) -> int {
    if n <= 1 {
        0
    } else {
        i * 255 / (n - 1)
    }
}

/// Even spacing keeps positions strictly increasing while there are no more
/// colors than table entries.
proof fn lemma_even_positions_increase(i: int, j: int, n: int)
    requires
        2 <= n <= 256,
        0 <= i < j < n,
    ensures
        even_position(i, n) < even_position(j, n),
        0 <= even_position(i, n),
        even_position(j, n) <= 255,
{
    let d = n - 1;
    assert(i * 255 / d + 1 <= j * 255 / d) by (nonlinear_arith)
        requires
            0 <= i < j <= d,
            1 <= d <= 255,
    {
        assert(j * 255 >= i * 255 + 255);
        assert(i * 255 + 255 >= i * 255 + d);
        assert((i * 255 + d) / d == i * 255 / d + 1);
    }
    assert(0 <= i * 255 / d) by (nonlinear_arith)
        requires
            0 <= i,
            1 <= d,
    ;
    assert(j * 255 / d <= 255) by (nonlinear_arith)
        requires
            0 <= j <= d,
            1 <= d,
    {
        assert(j * 255 <= d * 255);
    }
}

/// Control points that place the given colors evenly from density 0 to
/// density 1, in order.
pub fn evenly_spaced_points(colors: &Vec<Rgba8>) -> (r: Vec<ControlPoint>)
    requires
        1 <= colors@.len() <= LUT_SIZE,
    ensures
        r@.len() == colors@.len(),
        forall|i: int|
            0 <= i < r@.len() ==> (#[trigger] r@[i]).color == colors@[i] && r@[i].position
                == even_position(i, colors@.len() as int),
        points_wf(r@),
{
    let n = colors.len();
    let mut out: Vec<ControlPoint> = Vec::new();
    let mut i: usize = 0;
    while i < n
        invariant
            n == colors@.len(),
            1 <= n <= LUT_SIZE,
            i <= n,
            out@.len() == i,
            forall|k: int|
                0 <= k < i ==> (#[trigger] out@[k]).color == colors@[k] && out@[k].position
                    == even_position(k, n as int),
        decreases n - i,
    {
        let position: u8 = if n <= 1 {
            0
        } else {
            proof {
                if i > 0 {
                    lemma_even_positions_increase(0, i as int, n as int);
                } else {
                    lemma_even_positions_increase(0, 1, n as int);
                }
            }
            ((i as u32) * 255 / ((n - 1) as u32)) as u8
        };
        out.push(ControlPoint { position, color: colors[i] });
        i += 1;
    }
    assert forall|a: int, b: int| 0 <= a < b < out@.len() implies out@[a].position < out@[b].position by {
        lemma_even_positions_increase(a, b, n as int);
    }
    out
}

/// The bytes of a table as a texture holds them: four per entry, red,
/// green, blue, alpha.
pub open spec fn rgba_bytes(data: Seq<Rgba8>, b: Seq<u8>) -> bool {
    &&& b.len() == 4 * data.len()
    &&& forall|i: int|
        0 <= i < data.len() ==> b[4 * i] == (#[trigger] data[i]).r && b[4 * i + 1] == data[i].g && b[4
            * i + 2] == data[i].b && b[4 * i + 3] == data[i].a
}

/// Lays a table out as texture bytes.
pub fn flatten_rgba(data: &Vec<Rgba8>) -> (r: Vec<u8>)
    ensures
        rgba_bytes(data@, r@),
{
    let mut out: Vec<u8> = Vec::new();
    let mut i: usize = 0;
    while i < data.len()
        invariant
            i <= data@.len(),
            out@.len() == 4 * i,
            forall|k: int|
                0 <= k < i ==> out@[4 * k] == (#[trigger] data@[k]).r && out@[4 * k + 1] == data@[k].g
                    && out@[4 * k + 2] == data@[k].b && out@[4 * k + 3] == data@[k].a,
        decreases data@.len() - i,
    {
        let c = data[i];
        out.push(c.r);
        out.push(c.g);
        out.push(c.b);
        out.push(c.a);
        i += 1;
    }
    out
}

} // verus!
