//! Unit-cube geometry: six faces, each a small fixed vertex and index
//! list, in fixed-point units of 1/256. The canonical cube spans
//! -0.5..0.5 (raw -128..128) on every axis; [`Cube::new`] is pinned to
//! exactly that data, face by face and vertex by vertex.

use vstd::prelude::*;
use crate::fixed::{FIX_ONE, fix_mul, mul_operand};
use crate::models::{
    Vertex, can_scale_vertex, can_translate_vertex, scaled_vertices, translated_vertices,
};

verus! {

/// The six sides of a cube.
#[derive(Clone, Copy, PartialEq, Eq, Hash, Debug, Structural)]
pub enum Faces {
    Front,
    Back,
    Left,
    Right,
    Top,
    Bottom,
}

/// One side of a cube: a vertex list and an index list into it.
#[derive(Debug)]
pub struct Face {
    pub vertices: Vec<Vertex>,
    pub indices: Vec<u32>,
}

/// A cube: its six faces, tagged by side, in a fixed order.
#[derive(Debug)]
pub struct Cube {
    pub faces: Vec<(Faces, Face)>,
}

/// `v` with its texture coordinates scaled and then offset. As in the
/// face-offset routine itself, the first scale component is applied to
/// both axes.
pub open spec fn tex_offset_vertex(v: Vertex, scale: (i64, i64), offset: (i64, i64)) -> Vertex {
    Vertex {
        position: v.position,
        normal: v.normal,
        tex_coords: (
            (fix_mul(v.tex_coords.0 as int, scale.0 as int) + offset.0) as i64,
            (fix_mul(v.tex_coords.1 as int, scale.0 as int) + offset.1) as i64,
        ),
    }
}

/// Whether the texture coordinates of `v` can be scaled by `scale.0`
/// exactly and offset without leaving `i64`.
pub open spec fn can_tex_offset_vertex(v: Vertex, scale: (i64, i64), offset: (i64, i64)) -> bool {
    &&& mul_operand(v.tex_coords.0 as int)
    &&& mul_operand(v.tex_coords.1 as int)
    &&& mul_operand(scale.0 as int)
    &&& (v.tex_coords.0 * scale.0) % (FIX_ONE as int) == 0
    &&& (v.tex_coords.1 * scale.0) % (FIX_ONE as int) == 0
    &&& i64::MIN <= fix_mul(v.tex_coords.0 as int, scale.0 as int) + offset.0 <= i64::MAX
    &&& i64::MIN <= fix_mul(v.tex_coords.1 as int, scale.0 as int) + offset.1 <= i64::MAX
}

/// `s` with every vertex's texture coordinates transformed.
pub open spec fn tex_offset_vertices(s: Seq<Vertex>, scale: (i64, i64), offset: (i64, i64)) -> Seq<
    Vertex,
> {
    s.map_values(|v: Vertex| tex_offset_vertex(v, scale, offset))
}

/// Every vertex position of `c` lies within `b` of the origin on each
/// axis.
pub open spec fn cube_coords_within(c: Cube, b: int) -> bool {
    forall|i: int, j: int|
        0 <= i < c.faces@.len() && 0 <= j < c.faces@[i].1.vertices@.len() ==> {
            let p = (#[trigger] c.faces@[i].1.vertices@[j]).position;
            &&& -b <= p.0 <= b
            &&& -b <= p.1 <= b
            &&& -b <= p.2 <= b
        }
}

/// A vertex from its raw fixed-point components.
pub open spec fn vert(
    px: i64,
    py: i64,
    pz: i64,
    nx: i64,
    ny: i64,
    nz: i64,
    tu: i64,
    tv: i64,
) -> Vertex {
    Vertex { position: (px, py, pz), normal: (nx, ny, nz), tex_coords: (tu, tv) }
}

/// The canonical vertex list of one side of the unit cube.
pub open spec fn face_vertices(which: Faces) -> Seq<Vertex> {
    match which {
        Faces::Front => seq![
            vert(-128i64, -128i64, -128i64, 0, 0, -256i64, 256, 256),
            vert(128, -128i64, -128i64, 0, 0, -256i64, 0, 256),
            vert(128, 128, -128i64, 0, 0, -256i64, 0, 0),
            vert(128, 128, -128i64, 0, 0, -256i64, 0, 0),
            vert(-128i64, 128, -128i64, 0, 0, -256i64, 256, 0),
            vert(-128i64, -128i64, -128i64, 0, 0, -256i64, 256, 256),
        ],
        Faces::Back => seq![
            vert(-128i64, -128i64, 128, 0, 0, 256, 0, 256),
            vert(128, -128i64, 128, 0, 0, 256, 256, 256),
            vert(128, 128, 128, 0, 0, 256, 256, 0),
            vert(128, 128, 128, 0, 0, 256, 256, 0),
            vert(-128i64, 128, 128, 0, 0, 256, 0, 0),
            vert(-128i64, -128i64, 128, 0, 0, 256, 0, 256),
        ],
        Faces::Right => seq![
            vert(128, 128, 128, 256, 0, 0, 256, 0),
            vert(128, 128, -128i64, 256, 0, 0, 0, 0),
            vert(128, -128i64, -128i64, 256, 0, 0, 0, 256),
            vert(128, -128i64, -128i64, 256, 0, 0, 0, 256),
            vert(128, -128i64, 128, 256, 0, 0, 256, 256),
            vert(128, 128, 128, 256, 0, 0, 256, 0),
        ],
        Faces::Left => seq![
            vert(-128i64, 128, 128, -256i64, 0, 0, 0, 0),
            vert(-128i64, 128, -128i64, -256i64, 0, 0, 256, 0),
            vert(-128i64, -128i64, -128i64, -256i64, 0, 0, 256, 256),
            vert(-128i64, -128i64, -128i64, -256i64, 0, 0, 256, 256),
            vert(-128i64, -128i64, 128, -256i64, 0, 0, 0, 256),
            vert(-128i64, 128, 128, -256i64, 0, 0, 0, 0),
        ],
        Faces::Top => seq![
            vert(-128i64, 128, 128, 0, 256, 0, 0, 0),
            vert(128, 128, 128, 0, 256, 0, 256, 0),
            vert(128, 128, -128i64, 0, 256, 0, 256, 256),
            vert(128, 128, -128i64, 0, 256, 0, 256, 256),
            vert(-128i64, 128, -128i64, 0, 256, 0, 0, 256),
            vert(-128i64, 128, 128, 0, 256, 0, 0, 0),
        ],
        Faces::Bottom => seq![
            vert(-128i64, -128i64, 128, 0, -256i64, 0, 0, 0),
            vert(128, -128i64, 128, 0, -256i64, 0, 256, 0),
            vert(128, -128i64, -128i64, 0, -256i64, 0, 256, 256),
            vert(128, -128i64, -128i64, 0, -256i64, 0, 256, 256),
            vert(-128i64, -128i64, -128i64, 0, -256i64, 0, 0, 256),
            vert(-128i64, -128i64, 128, 0, -256i64, 0, 0, 0),
        ],
    }
}

/// The canonical index list of one side: two triangles, wound so the
/// visible side faces outward.
pub open spec fn face_indices(which: Faces) -> Seq<u32> {
    match which {
        Faces::Front => seq![2u32, 1, 0, 0, 4, 2],
        Faces::Back => seq![0u32, 1, 2, 2, 4, 0],
        Faces::Right => seq![2u32, 1, 0, 0, 4, 2],
        Faces::Left => seq![0u32, 1, 2, 2, 4, 0],
        Faces::Top => seq![0u32, 1, 2, 2, 4, 0],
        Faces::Bottom => seq![2u32, 1, 0, 0, 4, 2],
    }
}

/// The order in which a new cube carries its faces.
pub open spec fn face_order() -> Seq<Faces> {
    seq![Faces::Front, Faces::Back, Faces::Right, Faces::Left, Faces::Top, Faces::Bottom]
}

/// `f` holds exactly the canonical data of side `which`.
pub open spec fn is_canonical_face(f: Face, which: Faces) -> bool {
    f.vertices@ == face_vertices(which) && f.indices@ == face_indices(which)
}

impl Face {
    /// Every index points into the vertex list.
    pub open spec fn wf(self) -> bool {
        forall|i: int| 0 <= i < self.indices@.len() ==> self.indices@[i] < self.vertices@.len()
    }

    /// Whether every vertex can take this texture transform.
    pub open spec fn can_tex_offset(self, scale: (i64, i64), offset: (i64, i64)) -> bool {
        forall|i: int|
            0 <= i < self.vertices@.len() ==> can_tex_offset_vertex(
                #[trigger] self.vertices@[i],
                scale,
                offset,
            )
    }

    /// Whether every vertex of this face can be moved by `d`.
    pub open spec fn can_translate(self, d: (i64, i64, i64)) -> bool {
        forall|i: int|
            0 <= i < self.vertices@.len() ==> can_translate_vertex(#[trigger] self.vertices@[i], d)
    }

    /// Whether every vertex of this face can be scaled by `s`.
    pub open spec fn can_scale(self, s: i64) -> bool {
        forall|i: int|
            0 <= i < self.vertices@.len() ==> can_scale_vertex(#[trigger] self.vertices@[i], s)
    }

    /// Scales every texture coordinate by `scale.0` and shifts it by
    /// `offset`. Both axes take the first scale component, as the
    /// callers of this routine expect.
    pub fn set_face_texture_offset(&mut self, scale: (i64, i64), offset: (i64, i64))
        requires
            old(self).can_tex_offset(scale, offset),
        ensures
            final(self).vertices@ == tex_offset_vertices(old(self).vertices@, scale, offset),
            final(self).indices@ == old(self).indices@,
    {
        let n = self.vertices.len();
        let mut out: Vec<Vertex> = Vec::new();
        let mut i: usize = 0;
        while i < n
            invariant
                n == self.vertices@.len(),
                *self == *old(self),
                old(self).can_tex_offset(scale, offset),
                i <= n,
                out@ =~= tex_offset_vertices(
                    self.vertices@.subrange(0, i as int),
                    scale,
                    offset,
                ),
            decreases n - i,
        {
            let v = &self.vertices[i];
            out.push(
                Vertex {
                    position: v.position,
                    normal: v.normal,
                    tex_coords: (
                        crate::fixed::mul_fix(v.tex_coords.0, scale.0) + offset.0,
                        crate::fixed::mul_fix(v.tex_coords.1, scale.0) + offset.1,
                    ),
                },
            );
            i = i + 1;
        }
        proof {
            assert(self.vertices@.subrange(0, n as int) =~= self.vertices@);
        }
        self.vertices = out;
    }

    /// This face with every vertex moved by `d`; indices are untouched.
    pub fn translated(&self, d: (i64, i64, i64)) -> (r: Face)
        requires
            self.can_translate(d),
        ensures
            r.vertices@ == translated_vertices(self.vertices@, d),
            r.indices@ == self.indices@,
    {
        let n = self.vertices.len();
        let mut out: Vec<Vertex> = Vec::new();
        let mut i: usize = 0;
        while i < n
            invariant
                n == self.vertices@.len(),
                self.can_translate(d),
                i <= n,
                out@ =~= translated_vertices(self.vertices@.subrange(0, i as int), d),
            decreases n - i,
        {
            let v = self.vertices[i].translated(d);
            out.push(v);
            i = i + 1;
        }
        proof {
            assert(self.vertices@.subrange(0, n as int) =~= self.vertices@);
        }
        Face { vertices: out, indices: self.indices.clone() }
    }

    /// This face with every vertex position scaled by `s`; indices are
    /// untouched.
    pub fn scaled(&self, s: i64) -> (r: Face)
        requires
            self.can_scale(s),
        ensures
            r.vertices@ == scaled_vertices(self.vertices@, s),
            r.indices@ == self.indices@,
    {
        let n = self.vertices.len();
        let mut out: Vec<Vertex> = Vec::new();
        let mut i: usize = 0;
        while i < n
            invariant
                n == self.vertices@.len(),
                self.can_scale(s),
                i <= n,
                out@ =~= scaled_vertices(self.vertices@.subrange(0, i as int), s),
            decreases n - i,
        {
            let v = self.vertices[i].scaled(s);
            out.push(v);
            i = i + 1;
        }
        proof {
            assert(self.vertices@.subrange(0, n as int) =~= self.vertices@);
        }
        Face { vertices: out, indices: self.indices.clone() }
    }
}

impl Clone for Face {
    /// A clone holds the same vertices and indices.
    fn clone(&self) -> (r: Self)
        ensures
            r.vertices@ == self.vertices@,
            r.indices@ == self.indices@,
    {
        let mut vertices: Vec<Vertex> = Vec::new();
        let mut i: usize = 0;
        while i < self.vertices.len()
            invariant
                i <= self.vertices@.len(),
                vertices@ =~= self.vertices@.subrange(0, i as int),
            decreases self.vertices@.len() - i,
        {
            vertices.push(self.vertices[i]);
            i = i + 1;
        }
        proof {
            assert(self.vertices@.subrange(0, self.vertices@.len() as int) =~= self.vertices@);
        }
        Face { vertices, indices: self.indices.clone() }
    }
}

fn canonical_face(which: Faces) -> (f: Face)
    ensures
        is_canonical_face(f, which),
{
    let mut vertices: Vec<Vertex> = Vec::new();
    let mut indices: Vec<u32> = Vec::new();
    match which {
        Faces::Front => {
            vertices.push(Vertex { position: (-128, -128, -128), normal: (0, 0, -256), tex_coords: (256, 256) });
            vertices.push(Vertex { position: (128, -128, -128), normal: (0, 0, -256), tex_coords: (0, 256) });
            vertices.push(Vertex { position: (128, 128, -128), normal: (0, 0, -256), tex_coords: (0, 0) });
            vertices.push(Vertex { position: (128, 128, -128), normal: (0, 0, -256), tex_coords: (0, 0) });
            vertices.push(Vertex { position: (-128, 128, -128), normal: (0, 0, -256), tex_coords: (256, 0) });
            vertices.push(Vertex { position: (-128, -128, -128), normal: (0, 0, -256), tex_coords: (256, 256) });
            indices.push(2);
            indices.push(1);
            indices.push(0);
            indices.push(0);
            indices.push(4);
            indices.push(2);
        },
        Faces::Back => {
            vertices.push(Vertex { position: (-128, -128, 128), normal: (0, 0, 256), tex_coords: (0, 256) });
            vertices.push(Vertex { position: (128, -128, 128), normal: (0, 0, 256), tex_coords: (256, 256) });
            vertices.push(Vertex { position: (128, 128, 128), normal: (0, 0, 256), tex_coords: (256, 0) });
            vertices.push(Vertex { position: (128, 128, 128), normal: (0, 0, 256), tex_coords: (256, 0) });
            vertices.push(Vertex { position: (-128, 128, 128), normal: (0, 0, 256), tex_coords: (0, 0) });
            vertices.push(Vertex { position: (-128, -128, 128), normal: (0, 0, 256), tex_coords: (0, 256) });
            indices.push(0);
            indices.push(1);
            indices.push(2);
            indices.push(2);
            indices.push(4);
            indices.push(0);
        },
        Faces::Right => {
            vertices.push(Vertex { position: (128, 128, 128), normal: (256, 0, 0), tex_coords: (256, 0) });
            vertices.push(Vertex { position: (128, 128, -128), normal: (256, 0, 0), tex_coords: (0, 0) });
            vertices.push(Vertex { position: (128, -128, -128), normal: (256, 0, 0), tex_coords: (0, 256) });
            vertices.push(Vertex { position: (128, -128, -128), normal: (256, 0, 0), tex_coords: (0, 256) });
            vertices.push(Vertex { position: (128, -128, 128), normal: (256, 0, 0), tex_coords: (256, 256) });
            vertices.push(Vertex { position: (128, 128, 128), normal: (256, 0, 0), tex_coords: (256, 0) });
            indices.push(2);
            indices.push(1);
            indices.push(0);
            indices.push(0);
            indices.push(4);
            indices.push(2);
        },
        Faces::Left => {
            vertices.push(Vertex { position: (-128, 128, 128), normal: (-256, 0, 0), tex_coords: (0, 0) });
            vertices.push(Vertex { position: (-128, 128, -128), normal: (-256, 0, 0), tex_coords: (256, 0) });
            vertices.push(Vertex { position: (-128, -128, -128), normal: (-256, 0, 0), tex_coords: (256, 256) });
            vertices.push(Vertex { position: (-128, -128, -128), normal: (-256, 0, 0), tex_coords: (256, 256) });
            vertices.push(Vertex { position: (-128, -128, 128), normal: (-256, 0, 0), tex_coords: (0, 256) });
            vertices.push(Vertex { position: (-128, 128, 128), normal: (-256, 0, 0), tex_coords: (0, 0) });
            indices.push(0);
            indices.push(1);
            indices.push(2);
            indices.push(2);
            indices.push(4);
            indices.push(0);
        },
        Faces::Top => {
            vertices.push(Vertex { position: (-128, 128, 128), normal: (0, 256, 0), tex_coords: (0, 0) });
            vertices.push(Vertex { position: (128, 128, 128), normal: (0, 256, 0), tex_coords: (256, 0) });
            vertices.push(Vertex { position: (128, 128, -128), normal: (0, 256, 0), tex_coords: (256, 256) });
            vertices.push(Vertex { position: (128, 128, -128), normal: (0, 256, 0), tex_coords: (256, 256) });
            vertices.push(Vertex { position: (-128, 128, -128), normal: (0, 256, 0), tex_coords: (0, 256) });
            vertices.push(Vertex { position: (-128, 128, 128), normal: (0, 256, 0), tex_coords: (0, 0) });
            indices.push(0);
            indices.push(1);
            indices.push(2);
            indices.push(2);
            indices.push(4);
            indices.push(0);
        },
        Faces::Bottom => {
            vertices.push(Vertex { position: (-128, -128, 128), normal: (0, -256, 0), tex_coords: (0, 0) });
            vertices.push(Vertex { position: (128, -128, 128), normal: (0, -256, 0), tex_coords: (256, 0) });
            vertices.push(Vertex { position: (128, -128, -128), normal: (0, -256, 0), tex_coords: (256, 256) });
            vertices.push(Vertex { position: (128, -128, -128), normal: (0, -256, 0), tex_coords: (256, 256) });
            vertices.push(Vertex { position: (-128, -128, -128), normal: (0, -256, 0), tex_coords: (0, 256) });
            vertices.push(Vertex { position: (-128, -128, 128), normal: (0, -256, 0), tex_coords: (0, 0) });
            indices.push(2);
            indices.push(1);
            indices.push(0);
            indices.push(0);
            indices.push(4);
            indices.push(2);
        },
    }
    proof {
        assert(vertices@ =~= face_vertices(which));
        assert(indices@ =~= face_indices(which));
    }
    Face { vertices, indices }
}

impl Cube {
    /// The cube carries exactly the canonical six faces, in order.
    pub open spec fn is_canonical(self) -> bool {
        &&& self.faces@.len() == 6
        &&& forall|i: int|
            0 <= i < 6 ==> (#[trigger] self.faces@[i]).0 == face_order()[i]
                && is_canonical_face(self.faces@[i].1, face_order()[i])
    }

    /// Every face is internally consistent.
    pub open spec fn wf(self) -> bool {
        forall|i: int| 0 <= i < self.faces@.len() ==> (#[trigger] self.faces@[i]).1.wf()
    }

    /// Whether every face of this cube can be moved by `d`.
    pub open spec fn can_translate(self, d: (i64, i64, i64)) -> bool {
        forall|i: int|
            0 <= i < self.faces@.len() ==> (#[trigger] self.faces@[i]).1.can_translate(d)
    }

    /// Whether every face of this cube can be scaled by `s`.
    pub open spec fn can_scale(self, s: i64) -> bool {
        forall|i: int| 0 <= i < self.faces@.len() ==> (#[trigger] self.faces@[i]).1.can_scale(s)
    }

    /// The unit cube centred on the origin, with the canonical face data.
    pub fn new() -> (c: Cube)
        ensures
            c.is_canonical(),
            c.wf(),
    {
        let mut faces: Vec<(Faces, Face)> = Vec::new();
        faces.push((Faces::Front, canonical_face(Faces::Front)));
        faces.push((Faces::Back, canonical_face(Faces::Back)));
        faces.push((Faces::Right, canonical_face(Faces::Right)));
        faces.push((Faces::Left, canonical_face(Faces::Left)));
        faces.push((Faces::Top, canonical_face(Faces::Top)));
        faces.push((Faces::Bottom, canonical_face(Faces::Bottom)));
        let c = Cube { faces };
        proof {
            lemma_canonical_cube_wf(c);
        }
        c
    }

    /// Moves every vertex of every face by `direction`.
    pub fn translate_local(&mut self, direction: (i64, i64, i64))
        requires
            old(self).can_translate(direction),
        ensures
            final(self).faces@.len() == old(self).faces@.len(),
            forall|i: int|
                0 <= i < old(self).faces@.len() ==> {
                    &&& (#[trigger] final(self).faces@[i]).0 == old(self).faces@[i].0
                    &&& final(self).faces@[i].1.vertices@ == translated_vertices(
                        old(self).faces@[i].1.vertices@,
                        direction,
                    )
                    &&& final(self).faces@[i].1.indices@ == old(self).faces@[i].1.indices@
                },
    {
        let n = self.faces.len();
        let mut out: Vec<(Faces, Face)> = Vec::new();
        let mut i: usize = 0;
        while i < n
            invariant
                n == self.faces@.len(),
                *self == *old(self),
                old(self).can_translate(direction),
                i <= n,
                out@.len() == i,
                forall|j: int|
                    0 <= j < i ==> {
                        &&& (#[trigger] out@[j]).0 == self.faces@[j].0
                        &&& out@[j].1.vertices@ == translated_vertices(
                            self.faces@[j].1.vertices@,
                            direction,
                        )
                        &&& out@[j].1.indices@ == self.faces@[j].1.indices@
                    },
            decreases n - i,
        {
            let kind = self.faces[i].0;
            let f = self.faces[i].1.translated(direction);
            out.push((kind, f));
            i = i + 1;
        }
        self.faces = out;
    }

    /// Scales every vertex position of every face by the fixed-point
    /// factor `scale`.
    pub fn scale_local(&mut self, scale: i64)
        requires
            old(self).can_scale(scale),
        ensures
            final(self).faces@.len() == old(self).faces@.len(),
            forall|i: int|
                0 <= i < old(self).faces@.len() ==> {
                    &&& (#[trigger] final(self).faces@[i]).0 == old(self).faces@[i].0
                    &&& final(self).faces@[i].1.vertices@ == scaled_vertices(
                        old(self).faces@[i].1.vertices@,
                        scale,
                    )
                    &&& final(self).faces@[i].1.indices@ == old(self).faces@[i].1.indices@
                },
    {
        let n = self.faces.len();
        let mut out: Vec<(Faces, Face)> = Vec::new();
        let mut i: usize = 0;
        while i < n
            invariant
                n == self.faces@.len(),
                *self == *old(self),
                old(self).can_scale(scale),
                i <= n,
                out@.len() == i,
                forall|j: int|
                    0 <= j < i ==> {
                        &&& (#[trigger] out@[j]).0 == self.faces@[j].0
                        &&& out@[j].1.vertices@ == scaled_vertices(
                            self.faces@[j].1.vertices@,
                            scale,
                        )
                        &&& out@[j].1.indices@ == self.faces@[j].1.indices@
                    },
            decreases n - i,
        {
            let kind = self.faces[i].0;
            let f = self.faces[i].1.scaled(scale);
            out.push((kind, f));
            i = i + 1;
        }
        self.faces = out;
    }
}

impl Clone for Cube {
    /// A clone holds the same faces.
    fn clone(&self) -> (r: Self)
        ensures
            r.faces@.len() == self.faces@.len(),
            forall|i: int|
                0 <= i < self.faces@.len() ==> {
                    &&& (#[trigger] r.faces@[i]).0 == self.faces@[i].0
                    &&& r.faces@[i].1.vertices@ == self.faces@[i].1.vertices@
                    &&& r.faces@[i].1.indices@ == self.faces@[i].1.indices@
                },
    {
        let mut faces: Vec<(Faces, Face)> = Vec::new();
        let mut i: usize = 0;
        while i < self.faces.len()
            invariant
                i <= self.faces@.len(),
                faces@.len() == i,
                forall|j: int|
                    0 <= j < i ==> {
                        &&& (#[trigger] faces@[j]).0 == self.faces@[j].0
                        &&& faces@[j].1.vertices@ == self.faces@[j].1.vertices@
                        &&& faces@[j].1.indices@ == self.faces@[j].1.indices@
                    },
            decreases self.faces@.len() - i,
        {
            let kind = self.faces[i].0;
            let f = self.faces[i].1.clone();
            faces.push((kind, f));
            i = i + 1;
        }
        Cube { faces }
    }
}

/// The canonical data of every side is internally consistent: all its
/// indices point into its six vertices.
pub proof fn lemma_canonical_face_wf(f: Face, which: Faces)
    requires
        is_canonical_face(f, which),
    ensures
        f.wf(),
{
    assert(f.vertices@.len() == 6);
    assert forall|i: int| 0 <= i < f.indices@.len() implies f.indices@[i] < f.vertices@.len() by {
        assert(f.indices@ == face_indices(which));
    }
}

/// A cube holding only canonical faces is well formed.
pub proof fn lemma_canonical_cube_wf(c: Cube)
    requires
        c.is_canonical(),
    ensures
        c.wf(),
{
    assert forall|i: int| 0 <= i < c.faces@.len() implies (#[trigger] c.faces@[i]).1.wf() by {
        lemma_canonical_face_wf(c.faces@[i].1, face_order()[i]);
    }
}

} // verus!
