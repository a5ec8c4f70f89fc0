//! Blocks: named bundles of cubes, assembled with a builder and kept
//! in a name-keyed store.

use vstd::prelude::*;
use crate::cube::Cube;
use crate::store::Store;

verus! {

/// Two cubes carrying the same face data, side for side.
pub open spec fn same_cube(a: Cube, b: Cube) -> bool {
    &&& a.faces@.len() == b.faces@.len()
    &&& forall|i: int|
        0 <= i < a.faces@.len() ==> {
            &&& (#[trigger] a.faces@[i]).0 == b.faces@[i].0
            &&& a.faces@[i].1.vertices@ == b.faces@[i].1.vertices@
            &&& a.faces@[i].1.indices@ == b.faces@[i].1.indices@
        }
}

/// A named bundle of cubes.
pub struct Block {
    pub cubes: Vec<Cube>,
    name: String,
}

impl Block {
    /// The block's name.
    pub closed spec fn spec_name(self) -> Seq<char> {
        self.name@
    }

    /// The block's cubes.
    pub closed spec fn spec_cubes(self) -> Seq<Cube> {
        self.cubes@
    }
}

/// Assembles a [`Block`]: collects cubes, a name and a transparency
/// flag, then builds the block into a store.
pub struct BlockBuilder {
    cubes: Option<Vec<Cube>>,
    transparent: bool,
    name: String,
}

impl BlockBuilder {
    /// The cubes collected so far: nothing before the first
    /// [`BlockBuilder::add_cube`], then the cubes in insertion order.
    pub closed spec fn spec_cubes(self) -> Option<Seq<Cube>> {
        match self.cubes {
            Some(v) => Some(v@),
            None => None,
        }
    }

    /// The name the block will carry.
    pub closed spec fn spec_name(self) -> Seq<char> {
        self.name@
    }

    /// The transparency flag.
    pub closed spec fn spec_transparent(self) -> bool {
        self.transparent
    }

    /// A fresh builder: no cubes yet, opaque, named "none".
    pub fn new() -> (b: BlockBuilder)
        ensures
            b.spec_cubes() is None,
            !b.spec_transparent(),
            b.spec_name() == "none"@,
    {
        BlockBuilder { cubes: None, transparent: false, name: "none".to_owned() }
    }

    /// The builder with its name replaced.
    pub fn set_name(self, name: &str) -> (r: Self)
        ensures
            r.spec_name() == name@,
            r.spec_cubes() == self.spec_cubes(),
            r.spec_transparent() == self.spec_transparent(),
    {
        BlockBuilder { name: name.to_owned(), ..self }
    }

    /// The builder with its transparency flag replaced.
    pub fn set_transparent(self, transparent: bool) -> (r: Self)
        ensures
            r.spec_transparent() == transparent,
            r.spec_cubes() == self.spec_cubes(),
            r.spec_name() == self.spec_name(),
    {
        BlockBuilder { transparent, ..self }
    }

    /// The builder with `cube` appended to its cubes.
    pub fn add_cube(self, cube: Cube) -> (r: Self)
        ensures
            r.spec_cubes() is Some,
            r.spec_cubes()->0 == match self.spec_cubes() {
                Some(s) => s.push(cube),
                None => seq![cube],
            },
            r.spec_name() == self.spec_name(),
            r.spec_transparent() == self.spec_transparent(),
    {
        let mut cubes = match self.cubes {
            Some(v) => v,
            None => Vec::new(),
        };
        cubes.push(cube);
        proof {
            if self.spec_cubes() is None {
                assert(cubes@ =~= seq![cube]);
            }
        }
        BlockBuilder { cubes: Some(cubes), transparent: self.transparent, name: self.name }
    }

    /// Builds the block — a copy of the collected cubes under the
    /// builder's name — and inserts it into `add_to` under that name.
    /// At least one cube must have been added.
    pub fn build(&self, add_to: &mut Store<Block>)
        requires
            self.spec_cubes() is Some,
        ensures
            final(add_to)@.dom() == old(add_to)@.dom().insert(self.spec_name()),
            final(add_to)@[self.spec_name()].spec_name() == self.spec_name(),
            final(add_to)@[self.spec_name()].spec_cubes().len() == self.spec_cubes()->0.len(),
            forall|i: int|
                0 <= i < self.spec_cubes()->0.len() ==> same_cube(
                    #[trigger] final(add_to)@[self.spec_name()].spec_cubes()[i],
                    self.spec_cubes()->0[i],
                ),
            forall|k: Seq<char>|
                old(add_to)@.dom().contains(k) && k != self.spec_name()
                    ==> #[trigger] final(add_to)@[k] == old(add_to)@[k],
    {
        let source = match &self.cubes {
            Some(v) => v,
            None => unreached(),
        };
        let mut cubes: Vec<Cube> = Vec::new();
        let mut i: usize = 0;
        while i < source.len()
            invariant
                source == &self.cubes->0,
                self.spec_cubes() is Some,
                i <= source@.len(),
                cubes@.len() == i,
                forall|j: int|
                    0 <= j < i ==> same_cube(#[trigger] cubes@[j], source@[j]),
            decreases source@.len() - i,
        {
            cubes.push(source[i].clone());
            i = i + 1;
        }
        let new_block = Block { cubes, name: self.name.clone() };
        add_to.insert(self.name.clone(), new_block);
    }
}

} // verus!
