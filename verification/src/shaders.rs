//! Shader sources, keyed by name. The store only holds text: turning a
//! pair of sources into a GPU program object is the renderer's job and
//! happens outside this crate.

use vstd::prelude::*;
use crate::store::Store;

verus! {

/// One shader: its vertex and fragment sources.
#[derive(Debug)]
pub struct Shader {
    pub vertex: String,
    pub fragment: String,
}

impl Clone for Shader {
    /// A clone holds the same sources.
    fn clone(&self) -> (r: Self)
        ensures
            r.vertex@ == self.vertex@,
            r.fragment@ == self.fragment@,
    {
        Shader { vertex: self.vertex.clone(), fragment: self.fragment.clone() }
    }
}

/// All shaders loaded so far, by name.
pub struct Shaders {
    loaded_shaders: Store<Shader>,
}

impl View for Shaders {
    type V = Map<Seq<char>, Shader>;

    closed spec fn view(&self) -> Map<Seq<char>, Shader> {
        self.loaded_shaders@
    }
}

impl Shaders {
    /// An empty shader store.
    pub fn new() -> (s: Shaders)
        ensures
            s@ == Map::<Seq<char>, Shader>::empty(),
    {
        Shaders { loaded_shaders: Store::new() }
    }

    /// Stores the given vertex and fragment sources under `file_name`,
    /// replacing any previous pair of that name. Always succeeds.
    pub fn load_shader(&mut self, file_name: &str, vertex_source: &str, fragment_source: &str)
        -> (r: Result<bool, String>)
        ensures
            r == Ok::<bool, String>(true),
            final(self)@.dom() == old(self)@.dom().insert(file_name@),
            final(self)@[file_name@].vertex@ == vertex_source@,
            final(self)@[file_name@].fragment@ == fragment_source@,
            forall|k: Seq<char>|
                old(self)@.dom().contains(k) && k != file_name@ ==> #[trigger] final(self)@[k]
                    == old(self)@[k],
    {
        let shader = Shader {
            vertex: vertex_source.to_owned(),
            fragment: fragment_source.to_owned(),
        };
        self.loaded_shaders.insert(file_name.to_owned(), shader);
        Ok(true)
    }

    /// The stored sources of `shader_name`: the pair that a GPU program
    /// is compiled from. Fails with "Shader not found" exactly when no
    /// shader of that name was loaded.
    pub fn get_shader_program(&mut self, shader_name: &str) -> (r: Result<Shader, String>)
        ensures
            *final(self) == *old(self),
            match r {
                Ok(shader) => old(self)@.dom().contains(shader_name@) && shader.vertex@
                    == old(self)@[shader_name@].vertex@ && shader.fragment@
                    == old(self)@[shader_name@].fragment@,
                Err(e) => !old(self)@.dom().contains(shader_name@) && e@
                    == "Shader not found"@,
            },
    {
        match self.loaded_shaders.get(shader_name) {
            Some(shader) => Ok(shader.clone()),
            None => Err("Shader not found".to_owned()),
        }
    }
}

} // verus!
