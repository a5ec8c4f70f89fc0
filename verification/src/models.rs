//! Vertices and models: the CPU-side geometry that meshes are built from.
//!
//! A model's `indices` point into its `vertices`; [`Model::wf`] states
//! that every index is in range, and every operation preserves it.

use vstd::prelude::*;
use crate::fixed::{FIX_ONE, fix_mul, mul_operand};
use crate::store::Store;

verus! {

/// One vertex: position, normal and texture coordinates, all in
/// fixed-point units of 1/256.
#[derive(Clone, Copy, PartialEq, Eq, Debug)]
pub struct Vertex {
    pub position: (i64, i64, i64),
    pub normal: (i64, i64, i64),
    pub tex_coords: (i64, i64),
}

/// `v` moved by `d`, with normal and texture coordinates untouched.
pub open spec fn translated_vertex(v: Vertex, d: (i64, i64, i64)) -> Vertex {
    Vertex {
        position: (
            (v.position.0 + d.0) as i64,
            (v.position.1 + d.1) as i64,
            (v.position.2 + d.2) as i64,
        ),
        normal: v.normal,
        tex_coords: v.tex_coords,
    }
}

/// `s` with every vertex moved by `d`.
pub open spec fn translated_vertices(s: Seq<Vertex>, d: (i64, i64, i64)) -> Seq<Vertex> {
    s.map_values(|v: Vertex| translated_vertex(v, d))
}

/// `s` with every vertex position scaled by `sc`.
pub open spec fn scaled_vertices(s: Seq<Vertex>, sc: i64) -> Seq<Vertex> {
    s.map_values(|v: Vertex| scaled_vertex(v, sc))
}

/// Whether moving `v` by `d` stays inside `i64`.
pub open spec fn can_translate_vertex(v: Vertex, d: (i64, i64, i64)) -> bool {
    &&& i64::MIN <= v.position.0 + d.0 <= i64::MAX
    &&& i64::MIN <= v.position.1 + d.1 <= i64::MAX
    &&& i64::MIN <= v.position.2 + d.2 <= i64::MAX
}

/// `v` with its position multiplied by the fixed-point factor `s`.
pub open spec fn scaled_vertex(v: Vertex, s: i64) -> Vertex {
    Vertex {
        position: (
            fix_mul(v.position.0 as int, s as int) as i64,
            fix_mul(v.position.1 as int, s as int) as i64,
            fix_mul(v.position.2 as int, s as int) as i64,
        ),
        normal: v.normal,
        tex_coords: v.tex_coords,
    }
}

/// Whether the position of `v` can be multiplied by `s` exactly.
pub open spec fn can_scale_vertex(v: Vertex, s: i64) -> bool {
    &&& mul_operand(v.position.0 as int)
    &&& mul_operand(v.position.1 as int)
    &&& mul_operand(v.position.2 as int)
    &&& mul_operand(s as int)
    &&& (v.position.0 * s) % (FIX_ONE as int) == 0
    &&& (v.position.1 * s) % (FIX_ONE as int) == 0
    &&& (v.position.2 * s) % (FIX_ONE as int) == 0
}

impl Vertex {
    /// This vertex moved by `d`.
    pub fn translated(&self, d: (i64, i64, i64)) -> (r: Vertex)
        requires
            can_translate_vertex(*self, d),
        ensures
            r == translated_vertex(*self, d),
    {
        Vertex {
            position: (self.position.0 + d.0, self.position.1 + d.1, self.position.2 + d.2),
            normal: self.normal,
            tex_coords: self.tex_coords,
        }
    }

    /// This vertex with its position multiplied by the fixed-point factor `s`.
    pub fn scaled(&self, s: i64) -> (r: Vertex)
        requires
            can_scale_vertex(*self, s),
        ensures
            r == scaled_vertex(*self, s),
    {
        Vertex {
            position: (
                crate::fixed::mul_fix(self.position.0, s),
                crate::fixed::mul_fix(self.position.1, s),
                crate::fixed::mul_fix(self.position.2, s),
            ),
            normal: self.normal,
            tex_coords: self.tex_coords,
        }
    }
}

/// A loaded model: a vertex array and an index array into it.
#[derive(Debug)]
pub struct Model {
    pub vertices: Vec<Vertex>,
    pub indices: Vec<u32>,
}

impl Model {
    /// Every index points into the vertex array.
    pub open spec fn wf(self) -> bool {
        forall|i: int| 0 <= i < self.indices@.len() ==> self.indices@[i] < self.vertices@.len()
    }

    /// Whether every vertex of `self` can be moved by `d`.
    pub open spec fn can_translate(self, d: (i64, i64, i64)) -> bool {
        forall|i: int|
            0 <= i < self.vertices@.len() ==> can_translate_vertex(#[trigger] self.vertices@[i], d)
    }

    /// Whether every vertex of `self` can be scaled by `s`.
    pub open spec fn can_scale(self, s: i64) -> bool {
        forall|i: int|
            0 <= i < self.vertices@.len() ==> can_scale_vertex(#[trigger] self.vertices@[i], s)
    }

    /// Moves every vertex by `direction`; the index array is untouched.
    pub fn translate_local(&mut self, direction: (i64, i64, i64))
        requires
            old(self).can_translate(direction),
        ensures
            final(self).vertices@ == translated_vertices(old(self).vertices@, direction),
            final(self).indices@ == old(self).indices@,
    {
        let n = self.vertices.len();
        let mut out: Vec<Vertex> = Vec::new();
        let mut i: usize = 0;
        while i < n
            invariant
                n == self.vertices@.len(),
                *self == *old(self),
                old(self).can_translate(direction),
                i <= n,
                out@ =~= translated_vertices(self.vertices@.subrange(0, i as int), direction),
            decreases n - i,
        {
            let v = self.vertices[i].translated(direction);
            out.push(v);
            i = i + 1;
        }
        proof {
            assert(self.vertices@.subrange(0, n as int) =~= self.vertices@);
        }
        self.vertices = out;
    }

    /// Multiplies every vertex position by the fixed-point factor `scale`;
    /// the index array is untouched.
    pub fn scale_local(&mut self, scale: i64)
        requires
            old(self).can_scale(scale),
        ensures
            final(self).vertices@ == scaled_vertices(old(self).vertices@, scale),
            final(self).indices@ == old(self).indices@,
    {
        let n = self.vertices.len();
        let mut out: Vec<Vertex> = Vec::new();
        let mut i: usize = 0;
        while i < n
            invariant
                n == self.vertices@.len(),
                *self == *old(self),
                old(self).can_scale(scale),
                i <= n,
                out@ =~= scaled_vertices(self.vertices@.subrange(0, i as int), scale),
            decreases n - i,
        {
            let v = self.vertices[i].scaled(scale);
            out.push(v);
            i = i + 1;
        }
        proof {
            assert(self.vertices@.subrange(0, n as int) =~= self.vertices@);
        }
        self.vertices = out;
    }
}

impl Clone for Model {
    /// A clone holds the same vertices and indices.
    fn clone(&self) -> (r: Self)
        ensures
            r.vertices@ == self.vertices@,
            r.indices@ == self.indices@,
    {
        let mut vertices: Vec<Vertex> = Vec::new();
        let mut i: usize = 0;
        while i < self.vertices.len()
            invariant
                i <= self.vertices@.len(),
                vertices@ =~= self.vertices@.subrange(0, i as int),
            decreases self.vertices@.len() - i,
        {
            vertices.push(self.vertices[i]);
            i = i + 1;
        }
        let mut indices: Vec<u32> = Vec::new();
        let mut j: usize = 0;
        while j < self.indices.len()
            invariant
                j <= self.indices@.len(),
                indices@ =~= self.indices@.subrange(0, j as int),
            decreases self.indices@.len() - j,
        {
            indices.push(self.indices[j]);
            j = j + 1;
        }
        proof {
            assert(self.vertices@.subrange(0, self.vertices@.len() as int) =~= self.vertices@);
            assert(self.indices@.subrange(0, self.indices@.len() as int) =~= self.indices@);
        }
        Model { vertices, indices }
    }
}

/// All models loaded so far, by name. Parsing a model file into its
/// vertex and index arrays happens outside this crate; the store takes
/// the arrays as they are.
pub struct Models {
    loaded_models: Store<Model>,
}

impl View for Models {
    type V = Map<Seq<char>, Model>;

    closed spec fn view(&self) -> Map<Seq<char>, Model> {
        self.loaded_models@
    }
}

impl Models {
    /// An empty model store.
    pub fn new() -> (m: Models)
        ensures
            m@ == Map::<Seq<char>, Model>::empty(),
    {
        Models { loaded_models: Store::new() }
    }

    /// Stores `model` under `file_name`, replacing any previous model
    /// of that name. Always succeeds.
    pub fn load_model(&mut self, file_name: &str, model: Model) -> (r: Result<bool, String>)
        ensures
            r == Ok::<bool, String>(true),
            final(self)@.dom() == old(self)@.dom().insert(file_name@),
            final(self)@[file_name@] == model,
            forall|k: Seq<char>|
                old(self)@.dom().contains(k) && k != file_name@
                    ==> #[trigger] final(self)@[k] == old(self)@[k],
    {
        self.loaded_models.insert(file_name.to_owned(), model);
        Ok(true)
    }

    /// A copy of the stored model of `model_name`. Fails with "Model
    /// not found" exactly when no model of that name was loaded.
    pub fn get_model(&mut self, model_name: &str) -> (r: Result<Model, String>)
        ensures
            *final(self) == *old(self),
            match r {
                Ok(model) => old(self)@.dom().contains(model_name@) && model.vertices@ == old(
                    self,
                )@[model_name@].vertices@ && model.indices@ == old(self)@[model_name@].indices@,
                Err(e) => !old(self)@.dom().contains(model_name@) && e@ == "Model not found"@,
            },
    {
        match self.loaded_models.get(model_name) {
            Some(model) => Ok(model.clone()),
            None => Err("Model not found".to_owned()),
        }
    }
}

} // verus!
