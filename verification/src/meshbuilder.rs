//! Batching geometry into one mesh. Models and cubes are appended to a
//! single vertex array; each batch's indices are shifted by the vertex
//! count that preceded it, so every index keeps pointing at the vertex
//! it was written for inside the concatenated array. [`MeshBuilder::wf`]
//! states that invariant and every operation preserves it.

use vstd::prelude::*;
use crate::cube::{Cube, Face, Faces};
use crate::models::{Model, Vertex, translated_vertices};
use crate::shaders::Shader;
use crate::textures::Texture;

verus! {

/// A finished mesh: the data a renderer uploads and draws. The vertex
/// and index buffers are filled in by [`MeshBuilder::build`]; shader
/// and texture are optional.
pub struct Mesh {
    pub vertices: Option<Vec<Vertex>>,
    pub indices: Option<Vec<u32>>,
    pub shader: Option<Shader>,
    pub texture: Option<Texture>,
}

impl Mesh {
    /// Sets the vertex buffer.
    pub fn set_vertices(&mut self, vertices: Vec<Vertex>)
        ensures
            *final(self) == (Mesh { vertices: Some(vertices), ..*old(self) }),
    {
        self.vertices = Some(vertices);
    }

    /// Sets the index buffer.
    pub fn set_indices(&mut self, indices: Vec<u32>)
        ensures
            *final(self) == (Mesh { indices: Some(indices), ..*old(self) }),
    {
        self.indices = Some(indices);
    }

    /// Sets the shader.
    pub fn set_shader(&mut self, shader: Shader)
        ensures
            *final(self) == (Mesh { shader: Some(shader), ..*old(self) }),
    {
        self.shader = Some(shader);
    }

    /// Sets the texture.
    pub fn set_texture(&mut self, texture: Texture)
        ensures
            *final(self) == (Mesh { texture: Some(texture), ..*old(self) }),
    {
        self.texture = Some(texture);
    }
}

/// The vertices of a face list, concatenated in order.
pub open spec fn faces_vertices(s: Seq<(Faces, Face)>) -> Seq<Vertex>
    decreases s.len(),
{
    if s.len() == 0 {
        Seq::empty()
    } else {
        faces_vertices(s.drop_last()) + s.last().1.vertices@
    }
}

/// `s` with `off` added to every index.
pub open spec fn shifted_indices(s: Seq<u32>, off: int) -> Seq<u32> {
    s.map_values(|x: u32| (x + off) as u32)
}

/// The indices of a face list, each face's shifted by `base` plus the
/// number of vertices that earlier faces contributed.
pub open spec fn faces_indices(s: Seq<(Faces, Face)>, base: int) -> Seq<u32>
    decreases s.len(),
{
    if s.len() == 0 {
        Seq::empty()
    } else {
        faces_indices(s.drop_last(), base) + shifted_indices(
            s.last().1.indices@,
            base + faces_vertices(s.drop_last()).len(),
        )
    }
}

/// A prefix of a face list never contributes more vertices than the
/// whole list.
proof fn lemma_faces_vertices_prefix_len(s: Seq<(Faces, Face)>, k: int)
    requires
        0 <= k <= s.len(),
    ensures
        faces_vertices(s.subrange(0, k)).len() <= faces_vertices(s).len(),
    decreases s.len(),
{
    if k == s.len() {
        assert(s.subrange(0, k) =~= s);
    } else {
        assert(s.drop_last().subrange(0, k) =~= s.subrange(0, k));
        lemma_faces_vertices_prefix_len(s.drop_last(), k);
    }
}

/// Moving a cube moves its batched vertices and leaves its batched
/// indices alone: for face lists that agree except that one's vertices
/// are the other's translated, the concatenated vertices are translated
/// as a whole and the shifted indices are identical.
pub proof fn lemma_faces_translated(
    s1: Seq<(Faces, Face)>,
    s2: Seq<(Faces, Face)>,
    d: (i64, i64, i64),
)
    requires
        s2.len() == s1.len(),
        forall|i: int|
            0 <= i < s1.len() ==> {
                &&& (#[trigger] s2[i]).0 == s1[i].0
                &&& s2[i].1.vertices@ == translated_vertices(s1[i].1.vertices@, d)
                &&& s2[i].1.indices@ == s1[i].1.indices@
            },
    ensures
        faces_vertices(s2) == translated_vertices(faces_vertices(s1), d),
        forall|base: int| #[trigger] faces_indices(s2, base) == faces_indices(s1, base),
    decreases s1.len(),
{
    if s1.len() == 0 {
        assert(faces_vertices(s2) =~= translated_vertices(faces_vertices(s1), d));
        assert forall|base: int| #[trigger]
            faces_indices(s2, base) == faces_indices(s1, base) by {
            assert(faces_indices(s2, base) =~= faces_indices(s1, base));
        }
    } else {
        lemma_faces_translated(s1.drop_last(), s2.drop_last(), d);
        assert(s2.last() == s2[s1.len() - 1]);
        assert(s1.last() == s1[s1.len() - 1]);
        assert(s2.last().1.vertices@ == translated_vertices(s1.last().1.vertices@, d));
        assert(s2.last().1.indices@ == s1.last().1.indices@);
        assert(faces_vertices(s2) =~= translated_vertices(faces_vertices(s1), d));
        assert(faces_vertices(s2.drop_last()).len() == faces_vertices(s1.drop_last()).len());
        assert forall|base: int| #[trigger]
            faces_indices(s2, base) == faces_indices(s1, base) by {
            assert(faces_indices(s2.drop_last(), base) == faces_indices(s1.drop_last(), base));
            assert(shifted_indices(s2.last().1.indices@, base + faces_vertices(
                s2.drop_last(),
            ).len()) == shifted_indices(s1.last().1.indices@, base + faces_vertices(
                s1.drop_last(),
            ).len()));
        }
    }
}

/// Work in progress towards a [`Mesh`]: the growing vertex and index
/// arrays, and the mesh whose buffers they will become.
pub struct MeshBuilder {
    pub vertices: Vec<Vertex>,
    pub indices: Vec<u32>,
    pub mesh: Mesh,
}

impl MeshBuilder {
    /// Every index gathered so far points into the gathered vertices.
    pub open spec fn wf(self) -> bool {
        forall|i: int| 0 <= i < self.indices@.len() ==> self.indices@[i] < self.vertices@.len()
    }

    /// An empty builder: no geometry, and a mesh with nothing set.
    pub fn new() -> (b: MeshBuilder)
        ensures
            b.vertices@ == Seq::<Vertex>::empty(),
            b.indices@ == Seq::<u32>::empty(),
            b.mesh.vertices is None,
            b.mesh.indices is None,
            b.mesh.shader is None,
            b.mesh.texture is None,
            b.wf(),
    {
        MeshBuilder {
            vertices: Vec::new(),
            indices: Vec::new(),
            mesh: Mesh {
                vertices: Option::None,
                indices: Option::None,
                shader: Option::None,
                texture: Option::None,
            },
        }
    }

    /// Accepts a vertex and drops it: batching goes through
    /// [`MeshBuilder::add_model`] and [`MeshBuilder::add_cube`], which
    /// keep the index offsets right.
    pub fn add_vertex(&mut self, vertex: Vertex)
        ensures
            *final(self) == *old(self),
    {
    }

    /// Accepts an index and drops it, like [`MeshBuilder::add_vertex`].
    pub fn add_index(&mut self, index: u32)
        ensures
            *final(self) == *old(self),
    {
    }

    /// Sets the shader of the mesh under construction.
    pub fn set_shader(&mut self, shader: Shader)
        ensures
            final(self).vertices@ == old(self).vertices@,
            final(self).indices@ == old(self).indices@,
            final(self).mesh == (Mesh { shader: Some(shader), ..old(self).mesh }),
    {
        self.mesh.set_shader(shader);
    }

    /// Sets the texture of the mesh under construction.
    pub fn set_texture(&mut self, texture: Texture)
        ensures
            final(self).vertices@ == old(self).vertices@,
            final(self).indices@ == old(self).indices@,
            final(self).mesh == (Mesh { texture: Some(texture), ..old(self).mesh }),
    {
        self.mesh.set_texture(texture);
    }

    /// Appends a model: its vertices go after the gathered ones, and
    /// its indices are shifted by the vertex count they now start at.
    pub fn add_model(&mut self, model: Model)
        requires
            model.wf(),
            old(self).vertices@.len() + model.vertices@.len() <= u32::MAX,
        ensures
            final(self).vertices@ == old(self).vertices@ + model.vertices@,
            final(self).indices@ == old(self).indices@ + shifted_indices(
                model.indices@,
                old(self).vertices@.len() as int,
            ),
            final(self).mesh == old(self).mesh,
            old(self).wf() ==> final(self).wf(),
    {
        let offset: u32 = self.vertices.len() as u32;
        let n = model.indices.len();
        let mut j: usize = 0;
        while j < n
            invariant
                model.wf(),
                n == model.indices@.len(),
                offset == old(self).vertices@.len(),
                old(self).vertices@.len() + model.vertices@.len() <= u32::MAX,
                self.vertices@ == old(self).vertices@,
                self.mesh == old(self).mesh,
                j <= n,
                self.indices@ =~= old(self).indices@ + shifted_indices(
                    model.indices@.subrange(0, j as int),
                    old(self).vertices@.len() as int,
                ),
            decreases n - j,
        {
            let idx = model.indices[j];
            self.indices.push(idx + offset);
            j = j + 1;
        }
        proof {
            assert(model.indices@.subrange(0, n as int) =~= model.indices@);
        }
        self.vertices.extend_from_slice(model.vertices.as_slice());
    }

    /// Appends a cube, face by face, with the same index shifting as
    /// [`MeshBuilder::add_model`].
    pub fn add_cube(&mut self, cube: Cube)
        requires
            cube.wf(),
            old(self).vertices@.len() + faces_vertices(cube.faces@).len() <= u32::MAX,
        ensures
            final(self).vertices@ == old(self).vertices@ + faces_vertices(cube.faces@),
            final(self).indices@ == old(self).indices@ + faces_indices(
                cube.faces@,
                old(self).vertices@.len() as int,
            ),
            final(self).mesh == old(self).mesh,
            old(self).wf() ==> final(self).wf(),
    {
        let n = cube.faces.len();
        let mut i: usize = 0;
        while i < n
            invariant
                cube.wf(),
                n == cube.faces@.len(),
                old(self).vertices@.len() + faces_vertices(cube.faces@).len() <= u32::MAX,
                self.mesh == old(self).mesh,
                i <= n,
                self.vertices@ =~= old(self).vertices@ + faces_vertices(
                    cube.faces@.subrange(0, i as int),
                ),
                self.indices@ =~= old(self).indices@ + faces_indices(
                    cube.faces@.subrange(0, i as int),
                    old(self).vertices@.len() as int,
                ),
                old(self).wf() ==> self.wf(),
            decreases n - i,
        {
            proof {
                lemma_faces_vertices_prefix_len(cube.faces@, i + 1);
                assert(cube.faces@.subrange(0, i + 1).drop_last() =~= cube.faces@.subrange(
                    0,
                    i as int,
                ));
                assert(cube.faces@.subrange(0, i + 1).last() == cube.faces@[i as int]);
            }
            let face = &cube.faces[i].1;
            let offset: u32 = self.vertices.len() as u32;
            let m = face.indices.len();
            let mut j: usize = 0;
            while j < m
                invariant
                    cube.wf(),
                    0 <= i < cube.faces@.len(),
                    face == &cube.faces@[i as int].1,
                    m == face.indices@.len(),
                    offset == self.vertices@.len(),
                    self.vertices@.len() + face.vertices@.len() <= u32::MAX,
                    self.mesh == old(self).mesh,
                    j <= m,
                    self.vertices@ == old(self).vertices@ + faces_vertices(
                        cube.faces@.subrange(0, i as int),
                    ),
                    self.indices@ =~= old(self).indices@ + faces_indices(
                        cube.faces@.subrange(0, i as int),
                        old(self).vertices@.len() as int,
                    ) + shifted_indices(face.indices@.subrange(0, j as int), offset as int),
                    old(self).wf() ==> forall|k: int|
                        0 <= k < self.indices@.len() ==> self.indices@[k] < offset
                            + face.vertices@.len(),
                decreases m - j,
            {
                let idx = face.indices[j];
                self.indices.push(idx + offset);
                j = j + 1;
            }
            proof {
                assert(face.indices@.subrange(0, m as int) =~= face.indices@);
            }
            self.vertices.extend_from_slice(face.vertices.as_slice());
            proof {
                assert(self.vertices@ =~= old(self).vertices@ + faces_vertices(
                    cube.faces@.subrange(0, i + 1),
                ));
                assert(self.indices@ =~= old(self).indices@ + faces_indices(
                    cube.faces@.subrange(0, i + 1),
                    old(self).vertices@.len() as int,
                ));
            }
            i = i + 1;
        }
        proof {
            assert(cube.faces@.subrange(0, n as int) =~= cube.faces@);
        }
    }

    /// Finishes the mesh: the gathered vertex and index arrays become
    /// its buffers; shader and texture stay as they were set.
    pub fn build(self) -> (m: Mesh)
        ensures
            m.vertices == Some(self.vertices),
            m.indices == Some(self.indices),
            m.shader == self.mesh.shader,
            m.texture == self.mesh.texture,
    {
        let mut mesh = self.mesh;
        mesh.set_vertices(self.vertices);
        mesh.set_indices(self.indices);
        mesh
    }
}

} // verus!
