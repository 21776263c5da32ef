//! The fixed meshes: a unit cube whose vertices carry their own volume-space
//! coordinate, and a full-screen quad.
//!
//! Coordinates are held exactly, as whole multiples of `1 / VERTEX_UNITS`.
use vstd::prelude::*;

verus! {

/// Vertex coordinates are stored as multiples of `1 / VERTEX_UNITS`.
pub const VERTEX_UNITS: i32 = 2;

/// A point or attribute of three components, in units of `1 / VERTEX_UNITS`.
#[derive(Clone, Copy, Debug, PartialEq, Eq, Structural)]
pub struct Coord3 {
    pub x: i32,
    pub y: i32,
    pub z: i32,
}

/// An attribute of two components, in units of `1 / VERTEX_UNITS`.
#[derive(Clone, Copy, Debug, PartialEq, Eq, Structural)]
pub struct Coord2 {
    pub x: i32,
    pub y: i32,
}

/// A vertex with a two-component attribute (texture coordinates).
#[derive(Clone, Copy, Debug, PartialEq, Eq, Structural)]
pub struct Vertex2 {
    pub position: Coord3,
    pub attrib: Coord2,
}

/// A vertex with a three-component attribute (a volume-space coordinate).
#[derive(Clone, Copy, Debug, PartialEq, Eq, Structural)]
pub struct Vertex3 {
    pub position: Coord3,
    pub attrib: Coord3,
}

/// Width of the indices that a mesh hands to the GPU.
#[derive(Clone, Copy, Debug, PartialEq, Eq, Structural)]
pub enum IndexFormat {
    Uint16,
    Uint32,
}

/// Largest vertex count whose indices fit in 16 bits.
pub const U16_INDEX_LIMIT: usize = 65535;

/// The format a mesh with `n` vertices uses: 16-bit while every vertex can be
/// named in 16 bits, 32-bit otherwise.
pub open spec fn format_for(n: nat) -> IndexFormat {
    if n <= U16_INDEX_LIMIT {
        IndexFormat::Uint16
    } else {
        IndexFormat::Uint32
    }
}

/// What an index becomes when it is stored in the given format (the value
/// modulo the format's range, as a cast does).
pub open spec fn stored_index(i: int, f: IndexFormat) -> int {
    match f {
        IndexFormat::Uint16 => i % 0x1_0000,
        IndexFormat::Uint32 => i % 0x1_0000_0000,
    }
}

/// The bytes of a sequence of 16-bit values, two per value, in one byte order
/// for the whole sequence (that of the machine).
pub open spec fn bytes_of_u16s(b: Seq<u8>, v: Seq<u16>) -> bool {
    &&& b.len() == 2 * v.len()
    &&& {
        ||| forall|i: int| 0 <= i < v.len() ==> #[trigger] v[i] == b[2 * i] + 256 * b[2 * i + 1]
        ||| forall|i: int| 0 <= i < v.len() ==> #[trigger] v[i] == 256 * b[2 * i] + b[2 * i + 1]
    }
}

/// The bytes of a sequence of 32-bit values, four per value, in one byte order
/// for the whole sequence (that of the machine).
pub open spec fn bytes_of_u32s(b: Seq<u8>, v: Seq<u32>) -> bool {
    &&& b.len() == 4 * v.len()
    &&& {
        ||| forall|i: int|
            0 <= i < v.len() ==> #[trigger] v[i] == b[4 * i] + 256 * b[4 * i + 1] + 65536 * b[4 * i
                + 2] + 16777216 * b[4 * i + 3]
        ||| forall|i: int|
            0 <= i < v.len() ==> #[trigger] v[i] == 16777216 * b[4 * i] + 65536 * b[4 * i + 1]
                + 256 * b[4 * i + 2] + b[4 * i + 3]
    }
}

/// The bytes of an index buffer in format `f` holding `v`: two or four bytes per
/// index, in one byte order for the whole buffer (that of the machine).
pub open spec fn index_bytes(b: Seq<u8>, v: Seq<int>, f: IndexFormat) -> bool {
    match f {
        IndexFormat::Uint16 => {
            &&& b.len() == 2 * v.len()
            &&& {
                ||| forall|i: int| 0 <= i < v.len() ==> #[trigger] v[i] == b[2 * i] + 256 * b[2 * i + 1]
                ||| forall|i: int| 0 <= i < v.len() ==> #[trigger] v[i] == 256 * b[2 * i] + b[2 * i + 1]
            }
        },
        IndexFormat::Uint32 => {
            &&& b.len() == 4 * v.len()
            &&& {
                ||| forall|i: int|
                    0 <= i < v.len() ==> #[trigger] v[i] == b[4 * i] + 256 * b[4 * i + 1] + 65536 * b[4 * i + 2]
                        + 16777216 * b[4 * i + 3]
                ||| forall|i: int|
                    0 <= i < v.len() ==> #[trigger] v[i] == 16777216 * b[4 * i] + 65536 * b[4 * i + 1]
                        + 256 * b[4 * i + 2] + b[4 * i + 3]
            }
        },
    }
}

/// Relies on bytemuck::cast_slice from `u16` to `u8`: the same memory seen as
/// bytes, two per value in the machine's byte order; it cannot fail for `u8`.
#[verifier::external_body]
fn u16_slice_bytes(v: &Vec<u16>) -> (r: Vec<u8>)
    ensures
        bytes_of_u16s(r@, v@),
{
    bytemuck::cast_slice::<u16, u8>(v.as_slice()).to_vec()
}

/// Relies on bytemuck::cast_slice from `u32` to `u8`: the same memory seen as
/// bytes, four per value in the machine's byte order; it cannot fail for `u8`.
#[verifier::external_body]
fn u32_slice_bytes(v: &Vec<u32>) -> (r: Vec<u8>)
    ensures
        bytes_of_u32s(r@, v@),
{
    bytemuck::cast_slice::<u32, u8>(v.as_slice()).to_vec()
}

/// The index list of a mesh, stored in the narrowest format its vertex count
/// allows.
pub struct IndexData {
    pub format: IndexFormat,
    pub indices_u16: Vec<u16>,
    pub indices_u32: Vec<u32>,
}

impl IndexData {
    /// The indices as numbers.
    pub open spec fn view_seq(&self) -> Seq<int> {
        match self.format {
            IndexFormat::Uint16 => Seq::new(self.indices_u16@.len(), |i: int| self.indices_u16@[i] as int),
            IndexFormat::Uint32 => Seq::new(self.indices_u32@.len(), |i: int| self.indices_u32@[i] as int),
        }
    }

    pub open spec fn spec_format(&self) -> IndexFormat {
        self.format
    }

    /// Only the buffer of the chosen format holds indices.
    pub open spec fn wf(&self) -> bool {
        match self.format {
            IndexFormat::Uint16 => self.indices_u32@.len() == 0,
            IndexFormat::Uint32 => self.indices_u16@.len() == 0,
        }
    }

    /// Stores `indices` for a mesh of `vertex_count` vertices.
    pub fn new(indices: &Vec<usize>, vertex_count: usize) -> (r: IndexData)
        ensures
            r.wf(),
            r.spec_format() == format_for(vertex_count as nat),
            r.view_seq().len() == indices@.len(),
            forall|i: int|
                0 <= i < indices@.len() ==> #[trigger] r.view_seq()[i] == stored_index(
                    indices@[i] as int,
                    r.spec_format(),
                ),
    {
        if vertex_count <= U16_INDEX_LIMIT {
            let mut out: Vec<u16> = Vec::new();
            let mut k: usize = 0;
            while k < indices.len()
                invariant
                    k <= indices@.len(),
                    out@.len() == k,
                    forall|i: int| 0 <= i < k ==> #[trigger] out@[i] as int == indices@[i] as int % 0x1_0000,
                decreases indices@.len() - k,
            {
                out.push((indices[k] % 0x1_0000) as u16);
                k += 1;
            }
            IndexData { format: IndexFormat::Uint16, indices_u16: out, indices_u32: Vec::new() }
        } else {
            let mut out: Vec<u32> = Vec::new();
            let mut k: usize = 0;
            while k < indices.len()
                invariant
                    k <= indices@.len(),
                    out@.len() == k,
                    forall|i: int|
                        0 <= i < k ==> #[trigger] out@[i] as int == indices@[i] as int % 0x1_0000_0000,
                decreases indices@.len() - k,
            {
                out.push((indices[k] as u64 % 0x1_0000_0000) as u32);
                k += 1;
            }
            IndexData { format: IndexFormat::Uint32, indices_u16: Vec::new(), indices_u32: out }
        }
    }

    pub fn format(&self) -> (r: IndexFormat)
        ensures
            r == self.spec_format(),
    {
        self.format
    }

    pub fn len(&self) -> (r: usize)
        requires
            self.wf(),
        ensures
            r == self.view_seq().len(),
    {
        match self.format {
            IndexFormat::Uint16 => self.indices_u16.len(),
            IndexFormat::Uint32 => self.indices_u32.len(),
        }
    }

    /// The index buffer's contents as the GPU reads them.
    pub fn raw_bytes(&self) -> (r: Vec<u8>)
        requires
            self.wf(),
        ensures
            index_bytes(r@, self.view_seq(), self.spec_format()),
    {
        match self.format {
            IndexFormat::Uint16 => {
                let r = u16_slice_bytes(&self.indices_u16);
                proof {
                    let v = self.view_seq();
                    let w = self.indices_u16@;
                    if forall|i: int| 0 <= i < w.len() ==> #[trigger] w[i] == r@[2 * i] + 256 * r@[2 * i + 1] {
                        assert forall|i: int| 0 <= i < v.len() implies #[trigger] v[i] == r@[2 * i] + 256 * r@[2 * i + 1] by {
                            assert(w[i] == r@[2 * i] + 256 * r@[2 * i + 1]);
                        }
                    } else {
                        assert forall|i: int| 0 <= i < v.len() implies #[trigger] v[i] == 256 * r@[2 * i] + r@[2 * i + 1] by {
                            assert(w[i] == 256 * r@[2 * i] + r@[2 * i + 1]);
                        }
                    }
                }
                r
            },
            IndexFormat::Uint32 => {
                let r = u32_slice_bytes(&self.indices_u32);
                proof {
                    let v = self.view_seq();
                    let w = self.indices_u32@;
                    if forall|i: int| 0 <= i < w.len() ==> #[trigger] w[i] == r@[4 * i] + 256 * r@[4 * i + 1] + 65536 * r@[4 * i + 2] + 16777216 * r@[4 * i + 3] {
                        assert forall|i: int| 0 <= i < v.len() implies #[trigger] v[i] == r@[4 * i] + 256 * r@[4 * i + 1] + 65536 * r@[4 * i + 2] + 16777216 * r@[4 * i + 3] by {
                            assert(w[i] == r@[4 * i] + 256 * r@[4 * i + 1] + 65536 * r@[4 * i + 2] + 16777216 * r@[4 * i + 3]);
                        }
                    } else {
                        assert forall|i: int| 0 <= i < v.len() implies #[trigger] v[i] == 16777216 * r@[4 * i] + 65536 * r@[4 * i + 1] + 256 * r@[4 * i + 2] + r@[4 * i + 3] by {
                            assert(w[i] == 16777216 * r@[4 * i] + 65536 * r@[4 * i + 1] + 256 * r@[4 * i + 2] + r@[4 * i + 3]);
                        }
                    }
                }
                r
            },
        }
    }
}

/// A mesh whose index list the GPU can draw from.
pub trait Geometry {
    /// The mesh's indices, as numbers.
    spec fn indices_view(&self) -> Seq<int>;

    /// The format the indices are stored in.
    spec fn format_view(&self) -> IndexFormat;

    /// The mesh's stored data agree with one another.
    spec fn wf(&self) -> bool;

    fn get_index_raw(&self) -> (r: Vec<u8>)
        requires
            self.wf(),
        ensures
            index_bytes(r@, self.indices_view(), self.format_view()),
    ;

    fn get_index_format(&self) -> (r: IndexFormat)
        ensures
            r == self.format_view(),
    ;

    fn get_num_indices(&self) -> (r: usize)
        requires
            self.wf(),
        ensures
            r == self.indices_view().len(),
    ;
}

/// Pairs positions with attributes, one vertex per position.
pub open spec fn zip_vertices3(p: Seq<Coord3>, a: Seq<Coord3>) -> Seq<Vertex3> {
    Seq::new(p.len(), |i: int| Vertex3 { position: p[i], attrib: a[i] })
}

/// Pairs positions with attributes, one vertex per position.
pub open spec fn zip_vertices2(p: Seq<Coord3>, a: Seq<Coord2>) -> Seq<Vertex2> {
    Seq::new(p.len(), |i: int| Vertex2 { position: p[i], attrib: a[i] })
}

/// Where a point lands when OpenGL's clip depth range [-1, 1] is mapped onto
/// WGPU's [0, 1]: `x` and `y` stay, `z` becomes `(z + 1) / 2`.
pub open spec fn opengl_to_wgpu(p: Coord3) -> Coord3 {
    Coord3 { x: p.x, y: p.y, z: ((p.z + VERTEX_UNITS) / 2) as i32 }
}

/// Maps one point from OpenGL's clip depth range to WGPU's; the point's depth
/// must be a whole multiple of two units for the result to be exact.
pub fn opengl_to_wgpu_point(p: Coord3) -> (r: Coord3)
    requires
        p.z % 2 == 0,
        -0x4000_0000 <= p.z <= 0x4000_0000,
    ensures
        r == opengl_to_wgpu(p),
        2 * r.z == p.z + VERTEX_UNITS,
{
    Coord3 { x: p.x, y: p.y, z: (p.z + VERTEX_UNITS) / 2 }
}

/// A mesh whose vertices carry three-component attributes.
pub struct Mesh3 {
    pub vertices: Vec<Vertex3>,
    pub indices: IndexData,
}

impl Mesh3 {
    /// Builds a mesh from positions, the attribute of each position, and the
    /// triangle list.
    pub fn new(vertices: &Vec<Coord3>, indices: &Vec<usize>, attribs_3d: &Vec<Coord3>) -> (r: Mesh3)
        requires
            vertices@.len() == attribs_3d@.len(),
        ensures
            r.wf(),
            r.vertices@ == zip_vertices3(vertices@, attribs_3d@),
            r.format_view() == format_for(vertices@.len()),
            r.indices_view().len() == indices@.len(),
            forall|i: int|
                0 <= i < indices@.len() ==> #[trigger] r.indices_view()[i] == stored_index(
                    indices@[i] as int,
                    r.format_view(),
                ),
    {
        let mut out: Vec<Vertex3> = Vec::new();
        let mut k: usize = 0;
        while k < vertices.len()
            invariant
                k <= vertices@.len(),
                vertices@.len() == attribs_3d@.len(),
                out@ == zip_vertices3(vertices@, attribs_3d@).subrange(0, k as int),
            decreases vertices@.len() - k,
        {
            out.push(Vertex3 { position: vertices[k], attrib: attribs_3d[k] });
            k += 1;
        }
        assert(out@ == zip_vertices3(vertices@, attribs_3d@));
        let index_data = IndexData::new(indices, vertices.len());
        Mesh3 { vertices: out, indices: index_data }
    }
}

impl Geometry for Mesh3 {
    open spec fn indices_view(&self) -> Seq<int> {
        self.indices.view_seq()
    }

    open spec fn format_view(&self) -> IndexFormat {
        self.indices.spec_format()
    }

    open spec fn wf(&self) -> bool {
        self.indices.wf()
    }

    fn get_index_raw(&self) -> (r: Vec<u8>) {
        self.indices.raw_bytes()
    }

    fn get_index_format(&self) -> (r: IndexFormat) {
        self.indices.format()
    }

    fn get_num_indices(&self) -> (r: usize) {
        self.indices.len()
    }
}

/// A mesh whose vertices carry two-component attributes.
pub struct Mesh2 {
    pub vertices: Vec<Vertex2>,
    pub indices: IndexData,
}

impl Mesh2 {
    /// Builds a mesh from positions, the attribute of each position, and the
    /// triangle list; with `to_wgpu_depth` each position is first mapped from
    /// OpenGL's clip depth range to WGPU's.
    pub fn new(
        vertices: &Vec<Coord3>,
        indices: &Vec<usize>,
        attribs_2d: &Vec<Coord2>,
        to_wgpu_depth: bool,
    ) -> (r: Mesh2)
        requires
            vertices@.len() == attribs_2d@.len(),
            to_wgpu_depth ==> forall|i: int|
                0 <= i < vertices@.len() ==> #[trigger] vertices@[i].z % 2 == 0 && -0x4000_0000
                    <= vertices@[i].z <= 0x4000_0000,
        ensures
            r.wf(),
            to_wgpu_depth ==> r.vertices@ == zip_vertices2(
                vertices@.map_values(|p: Coord3| opengl_to_wgpu(p)),
                attribs_2d@,
            ),
            !to_wgpu_depth ==> r.vertices@ == zip_vertices2(vertices@, attribs_2d@),
            r.format_view() == format_for(vertices@.len()),
            r.indices_view().len() == indices@.len(),
            forall|i: int|
                0 <= i < indices@.len() ==> #[trigger] r.indices_view()[i] == stored_index(
                    indices@[i] as int,
                    r.format_view(),
                ),
    {
        let ghost placed = if to_wgpu_depth {
            vertices@.map_values(|p: Coord3| opengl_to_wgpu(p))
        } else {
            vertices@
        };
        let mut out: Vec<Vertex2> = Vec::new();
        let mut k: usize = 0;
        while k < vertices.len()
            invariant
                k <= vertices@.len(),
                vertices@.len() == attribs_2d@.len(),
                placed.len() == vertices@.len(),
                to_wgpu_depth ==> forall|i: int|
                    0 <= i < vertices@.len() ==> #[trigger] vertices@[i].z % 2 == 0 && -0x4000_0000
                        <= vertices@[i].z <= 0x4000_0000,
                placed == (if to_wgpu_depth {
                    vertices@.map_values(|p: Coord3| opengl_to_wgpu(p))
                } else {
                    vertices@
                }),
                out@ == zip_vertices2(placed, attribs_2d@).subrange(0, k as int),
            decreases vertices@.len() - k,
        {
            let p = if to_wgpu_depth {
                opengl_to_wgpu_point(vertices[k])
            } else {
                vertices[k]
            };
            out.push(Vertex2 { position: p, attrib: attribs_2d[k] });
            k += 1;
        }
        assert(out@ == zip_vertices2(placed, attribs_2d@));
        let index_data = IndexData::new(indices, vertices.len());
        Mesh2 { vertices: out, indices: index_data }
    }
}

impl Geometry for Mesh2 {
    open spec fn indices_view(&self) -> Seq<int> {
        self.indices.view_seq()
    }

    open spec fn format_view(&self) -> IndexFormat {
        self.indices.spec_format()
    }

    open spec fn wf(&self) -> bool {
        self.indices.wf()
    }

    fn get_index_raw(&self) -> (r: Vec<u8>) {
        self.indices.raw_bytes()
    }

    fn get_index_format(&self) -> (r: IndexFormat) {
        self.indices.format()
    }

    fn get_num_indices(&self) -> (r: usize) {
        self.indices.len()
    }
}

pub open spec fn c3(x: int, y: int, z: int) -> Coord3 {
    Coord3 { x: x as i32, y: y as i32, z: z as i32 }
}

pub open spec fn c2(x: int, y: int) -> Coord2 {
    Coord2 { x: x as i32, y: y as i32 }
}

/// Corner `k` of the cube centred on the origin with side one: corners 0 to 3
/// lie on the face `z = 1/2`, 4 to 7 on `z = -1/2`, each four running
/// counter-clockwise seen from `+z`.
pub open spec fn cube_corner(k: int) -> Coord3 {
    let m = k % 4;
    c3(
        if m == 1 || m == 2 { 1 } else { -1 },
        if m == 2 || m == 3 { 1 } else { -1 },
        if k < 4 { 1 } else { -1 },
    )
}

/// The cube's eight corners.
pub open spec fn cube_positions() -> Seq<Coord3> {
    Seq::new(8, |k: int| cube_corner(k))
}

/// Each corner's volume-space coordinate: the corner moved by half a side, so
/// that the cube spans `[0, 1]` on each axis.
pub open spec fn volume_coord(p: Coord3) -> Coord3 {
    Coord3 { x: (p.x + 1) as i32, y: (p.y + 1) as i32, z: (p.z + 1) as i32 }
}

/// Entry `k` of the cube's index list: twelve triangles, two per face,
/// counter-clockwise seen from outside.
pub open spec fn cube_index(k: int) -> int {
    let t = k / 6;
    let j = k % 6;
    let face: Seq<int> = if t == 0 {
        seq![0, 1, 3, 3, 1, 2]
    } else if t == 1 {
        seq![2, 1, 5, 2, 5, 6]
    } else if t == 2 {
        seq![3, 2, 7, 7, 2, 6]
    } else if t == 3 {
        seq![4, 0, 3, 4, 3, 7]
    } else if t == 4 {
        seq![4, 1, 0, 4, 5, 1]
    } else {
        seq![7, 6, 5, 7, 5, 4]
    };
    face[j]
}

/// The cube's index list.
pub open spec fn cube_indices() -> Seq<int> {
    Seq::new(36, |k: int| cube_index(k))
}

/// `(b - a) x (c - a)`, dotted with `a`: positive when the triangle `a b c`
/// turns counter-clockwise seen from outside a solid centred on the origin.
pub open spec fn outward_measure(a: Coord3, b: Coord3, c: Coord3) -> int {
    let (ux, uy, uz) = (b.x - a.x, b.y - a.y, b.z - a.z);
    let (vx, vy, vz) = (c.x - a.x, c.y - a.y, c.z - a.z);
    a.x * (uy * vz - uz * vy) + a.y * (uz * vx - ux * vz) + a.z * (ux * vy - uy * vx)
}

/// Triangle `t` of an index list over the given positions faces outward.
pub open spec fn triangle_faces_outward(pos: Seq<Coord3>, idx: Seq<int>, t: int) -> bool {
    outward_measure(pos[idx[3 * t]], pos[idx[3 * t + 1]], pos[idx[3 * t + 2]]) > 0
}

/// Every triangle of the cube turns counter-clockwise seen from outside, so
/// culling back faces keeps the surface nearest the eye and culling front faces
/// keeps the farthest.
pub proof fn lemma_cube_faces_outward()
    ensures
        forall|t: int| 0 <= t < 12 ==> #[trigger] triangle_faces_outward(cube_positions(), cube_indices(), t),
{
    let p = cube_positions();
    let i = cube_indices();
    assert forall|t: int| 0 <= t < 12 implies #[trigger] triangle_faces_outward(p, i, t) by {
        if t == 0 {
            assert(cube_index(0) == 0 && cube_index(1) == 1 && cube_index(2) == 3);
            assert(cube_corner(0) == c3(-1, -1, 1));
            assert(cube_corner(1) == c3(1, -1, 1));
            assert(cube_corner(3) == c3(-1, 1, 1));
            assert(i[0] == 0 && i[1] == 1 && i[2] == 3);
            assert(outward_measure(c3(-1, -1, 1), c3(1, -1, 1), c3(-1, 1, 1)) == 4) by (nonlinear_arith);
            assert(outward_measure(p[0], p[1], p[3]) == 4);
        } else if t == 1 {
            assert(cube_index(3) == 3 && cube_index(4) == 1 && cube_index(5) == 2);
            assert(cube_corner(3) == c3(-1, 1, 1));
            assert(cube_corner(1) == c3(1, -1, 1));
            assert(cube_corner(2) == c3(1, 1, 1));
            assert(i[3] == 3 && i[4] == 1 && i[5] == 2);
            assert(outward_measure(c3(-1, 1, 1), c3(1, -1, 1), c3(1, 1, 1)) == 4) by (nonlinear_arith);
            assert(outward_measure(p[3], p[1], p[2]) == 4);
        } else if t == 2 {
            assert(cube_index(6) == 2 && cube_index(7) == 1 && cube_index(8) == 5);
            assert(cube_corner(2) == c3(1, 1, 1));
            assert(cube_corner(1) == c3(1, -1, 1));
            assert(cube_corner(5) == c3(1, -1, -1));
            assert(i[6] == 2 && i[7] == 1 && i[8] == 5);
            assert(outward_measure(c3(1, 1, 1), c3(1, -1, 1), c3(1, -1, -1)) == 4) by (nonlinear_arith);
            assert(outward_measure(p[2], p[1], p[5]) == 4);
        } else if t == 3 {
            assert(cube_index(9) == 2 && cube_index(10) == 5 && cube_index(11) == 6);
            assert(cube_corner(2) == c3(1, 1, 1));
            assert(cube_corner(5) == c3(1, -1, -1));
            assert(cube_corner(6) == c3(1, 1, -1));
            assert(i[9] == 2 && i[10] == 5 && i[11] == 6);
            assert(outward_measure(c3(1, 1, 1), c3(1, -1, -1), c3(1, 1, -1)) == 4) by (nonlinear_arith);
            assert(outward_measure(p[2], p[5], p[6]) == 4);
        } else if t == 4 {
            assert(cube_index(12) == 3 && cube_index(13) == 2 && cube_index(14) == 7);
            assert(cube_corner(3) == c3(-1, 1, 1));
            assert(cube_corner(2) == c3(1, 1, 1));
            assert(cube_corner(7) == c3(-1, 1, -1));
            assert(i[12] == 3 && i[13] == 2 && i[14] == 7);
            assert(outward_measure(c3(-1, 1, 1), c3(1, 1, 1), c3(-1, 1, -1)) == 4) by (nonlinear_arith);
            assert(outward_measure(p[3], p[2], p[7]) == 4);
        } else if t == 5 {
            assert(cube_index(15) == 7 && cube_index(16) == 2 && cube_index(17) == 6);
            assert(cube_corner(7) == c3(-1, 1, -1));
            assert(cube_corner(2) == c3(1, 1, 1));
            assert(cube_corner(6) == c3(1, 1, -1));
            assert(i[15] == 7 && i[16] == 2 && i[17] == 6);
            assert(outward_measure(c3(-1, 1, -1), c3(1, 1, 1), c3(1, 1, -1)) == 4) by (nonlinear_arith);
            assert(outward_measure(p[7], p[2], p[6]) == 4);
        } else if t == 6 {
            assert(cube_index(18) == 4 && cube_index(19) == 0 && cube_index(20) == 3);
            assert(cube_corner(4) == c3(-1, -1, -1));
            assert(cube_corner(0) == c3(-1, -1, 1));
            assert(cube_corner(3) == c3(-1, 1, 1));
            assert(i[18] == 4 && i[19] == 0 && i[20] == 3);
            assert(outward_measure(c3(-1, -1, -1), c3(-1, -1, 1), c3(-1, 1, 1)) == 4) by (nonlinear_arith);
            assert(outward_measure(p[4], p[0], p[3]) == 4);
        } else if t == 7 {
            assert(cube_index(21) == 4 && cube_index(22) == 3 && cube_index(23) == 7);
            assert(cube_corner(4) == c3(-1, -1, -1));
            assert(cube_corner(3) == c3(-1, 1, 1));
            assert(cube_corner(7) == c3(-1, 1, -1));
            assert(i[21] == 4 && i[22] == 3 && i[23] == 7);
            assert(outward_measure(c3(-1, -1, -1), c3(-1, 1, 1), c3(-1, 1, -1)) == 4) by (nonlinear_arith);
            assert(outward_measure(p[4], p[3], p[7]) == 4);
        } else if t == 8 {
            assert(cube_index(24) == 4 && cube_index(25) == 1 && cube_index(26) == 0);
            assert(cube_corner(4) == c3(-1, -1, -1));
            assert(cube_corner(1) == c3(1, -1, 1));
            assert(cube_corner(0) == c3(-1, -1, 1));
            assert(i[24] == 4 && i[25] == 1 && i[26] == 0);
            assert(outward_measure(c3(-1, -1, -1), c3(1, -1, 1), c3(-1, -1, 1)) == 4) by (nonlinear_arith);
            assert(outward_measure(p[4], p[1], p[0]) == 4);
        } else if t == 9 {
            assert(cube_index(27) == 4 && cube_index(28) == 5 && cube_index(29) == 1);
            assert(cube_corner(4) == c3(-1, -1, -1));
            assert(cube_corner(5) == c3(1, -1, -1));
            assert(cube_corner(1) == c3(1, -1, 1));
            assert(i[27] == 4 && i[28] == 5 && i[29] == 1);
            assert(outward_measure(c3(-1, -1, -1), c3(1, -1, -1), c3(1, -1, 1)) == 4) by (nonlinear_arith);
            assert(outward_measure(p[4], p[5], p[1]) == 4);
        } else if t == 10 {
            assert(cube_index(30) == 7 && cube_index(31) == 6 && cube_index(32) == 5);
            assert(cube_corner(7) == c3(-1, 1, -1));
            assert(cube_corner(6) == c3(1, 1, -1));
            assert(cube_corner(5) == c3(1, -1, -1));
            assert(i[30] == 7 && i[31] == 6 && i[32] == 5);
            assert(outward_measure(c3(-1, 1, -1), c3(1, 1, -1), c3(1, -1, -1)) == 4) by (nonlinear_arith);
            assert(outward_measure(p[7], p[6], p[5]) == 4);
        } else {
            assert(cube_index(33) == 7 && cube_index(34) == 5 && cube_index(35) == 4);
            assert(cube_corner(7) == c3(-1, 1, -1));
            assert(cube_corner(5) == c3(1, -1, -1));
            assert(cube_corner(4) == c3(-1, -1, -1));
            assert(i[33] == 7 && i[34] == 5 && i[35] == 4);
            assert(outward_measure(c3(-1, 1, -1), c3(1, -1, -1), c3(-1, -1, -1)) == 4) by (nonlinear_arith);
            assert(outward_measure(p[7], p[5], p[4]) == 4);
        }
    }
}

/// The unit cube that the face passes rasterise: eight corners, each carrying
/// its volume-space coordinate, and twelve triangles.
pub fn create_cube_fbo() -> (r: Mesh3)
    ensures
        r.wf(),
        r.vertices@.len() == 8,
        forall|k: int|
            0 <= k < 8 ==> (#[trigger] r.vertices@[k]).position == cube_positions()[k]
                && r.vertices@[k].attrib == volume_coord(cube_positions()[k]),
        r.format_view() == IndexFormat::Uint16,
        r.indices_view() == cube_indices(),
{
    let vertices: Vec<Coord3> = vec![
        Coord3 { x: -1, y: -1, z: 1 },
        Coord3 { x: 1, y: -1, z: 1 },
        Coord3 { x: 1, y: 1, z: 1 },
        Coord3 { x: -1, y: 1, z: 1 },
        Coord3 { x: -1, y: -1, z: -1 },
        Coord3 { x: 1, y: -1, z: -1 },
        Coord3 { x: 1, y: 1, z: -1 },
        Coord3 { x: -1, y: 1, z: -1 },
    ];
    let attribs_3d: Vec<Coord3> = vec![
        Coord3 { x: 0, y: 0, z: 2 },
        Coord3 { x: 2, y: 0, z: 2 },
        Coord3 { x: 2, y: 2, z: 2 },
        Coord3 { x: 0, y: 2, z: 2 },
        Coord3 { x: 0, y: 0, z: 0 },
        Coord3 { x: 2, y: 0, z: 0 },
        Coord3 { x: 2, y: 2, z: 0 },
        Coord3 { x: 0, y: 2, z: 0 },
    ];
    let indices: Vec<usize> = vec![
        0, 1, 3, 3, 1, 2,
        2, 1, 5, 2, 5, 6,
        3, 2, 7, 7, 2, 6,
        4, 0, 3, 4, 3, 7,
        4, 1, 0, 4, 5, 1,
        7, 6, 5, 7, 5, 4,
    ];
    assert(vertices@ =~= cube_positions());
    assert(attribs_3d@ =~= cube_positions().map_values(|p: Coord3| volume_coord(p)));
    let r = Mesh3::new(&vertices, &indices, &attribs_3d);
    assert(r.indices_view() =~= cube_indices());
    r
}

/// A full-screen quad or a unit square: one mesh of two triangles.
pub struct Rectangle {
    pub mesh: Mesh2,
}

/// The two triangles of a quad whose corners run counter-clockwise.
pub open spec fn quad_indices() -> Seq<int> {
    seq![0, 1, 2, 0, 2, 3]
}

/// Texture coordinates of a quad's corners, `v` growing downwards.
pub open spec fn quad_attribs() -> Seq<Coord2> {
    seq![c2(0, 2), c2(2, 2), c2(2, 0), c2(0, 0)]
}

/// The corners of the quad that covers the whole viewport, at depth one half.
pub open spec fn standard_quad_positions() -> Seq<Coord3> {
    seq![c3(-2, -2, 1), c3(2, -2, 1), c3(2, 2, 1), c3(-2, 2, 1)]
}

/// The corners of the unit square, at depth one half.
pub open spec fn unit_quad_positions() -> Seq<Coord3> {
    seq![c3(0, 0, 1), c3(2, 0, 1), c3(2, 2, 1), c3(0, 2, 1)]
}

impl Rectangle {
    fn build(pos: Vec<Coord3>) -> (r: Rectangle)
        requires
            pos@.len() == 4,
            forall|i: int| 0 <= i < 4 ==> #[trigger] pos@[i].z == 0 && -4 <= pos@[i].x <= 4 && -4
                <= pos@[i].y <= 4,
        ensures
            r.mesh.wf(),
            r.mesh.vertices@ == zip_vertices2(
                pos@.map_values(|p: Coord3| opengl_to_wgpu(p)),
                quad_attribs(),
            ),
            r.mesh.format_view() == IndexFormat::Uint16,
            r.mesh.indices_view() == quad_indices(),
    {
        let attribs: Vec<Coord2> = vec![
            Coord2 { x: 0, y: 2 },
            Coord2 { x: 2, y: 2 },
            Coord2 { x: 2, y: 0 },
            Coord2 { x: 0, y: 0 },
        ];
        let indices: Vec<usize> = vec![0, 1, 2, 0, 2, 3];
        assert(attribs@ =~= quad_attribs());
        let mesh = Mesh2::new(&pos, &indices, &attribs, true);
        assert(mesh.indices_view() =~= quad_indices());
        Rectangle { mesh }
    }

    /// The quad that covers the whole viewport, mapped into WGPU's depth range.
    pub fn new_standard_rectangle() -> (r: Rectangle)
        ensures
            r.wf(),
            r.mesh.vertices@ == zip_vertices2(standard_quad_positions(), quad_attribs()),
            r.format_view() == IndexFormat::Uint16,
            r.indices_view() == quad_indices(),
    {
        let pos: Vec<Coord3> = vec![
            Coord3 { x: -2, y: -2, z: 0 },
            Coord3 { x: 2, y: -2, z: 0 },
            Coord3 { x: 2, y: 2, z: 0 },
            Coord3 { x: -2, y: 2, z: 0 },
        ];
        let r = Rectangle::build(pos);
        assert(r.mesh.vertices@ =~= zip_vertices2(standard_quad_positions(), quad_attribs()));
        r
    }

    /// The unit square, mapped into WGPU's depth range.
    pub fn new_unit_rectangle() -> (r: Rectangle)
        ensures
            r.wf(),
            r.mesh.vertices@ == zip_vertices2(unit_quad_positions(), quad_attribs()),
            r.format_view() == IndexFormat::Uint16,
            r.indices_view() == quad_indices(),
    {
        let pos: Vec<Coord3> = vec![
            Coord3 { x: 0, y: 0, z: 0 },
            Coord3 { x: 2, y: 0, z: 0 },
            Coord3 { x: 2, y: 2, z: 0 },
            Coord3 { x: 0, y: 2, z: 0 },
        ];
        let r = Rectangle::build(pos);
        assert(r.mesh.vertices@ =~= zip_vertices2(unit_quad_positions(), quad_attribs()));
        r
    }
}

impl Geometry for Rectangle {
    open spec fn indices_view(&self) -> Seq<int> {
        self.mesh.indices_view()
    }

    open spec fn format_view(&self) -> IndexFormat {
        self.mesh.format_view()
    }

    open spec fn wf(&self) -> bool {
        self.mesh.wf()
    }

    fn get_index_raw(&self) -> (r: Vec<u8>) {
        self.mesh.get_index_raw()
    }

    fn get_index_format(&self) -> (r: IndexFormat) {
        self.mesh.get_index_format()
    }

    fn get_num_indices(&self) -> (r: usize) {
        self.mesh.get_num_indices()
    }
}

} // verus!
