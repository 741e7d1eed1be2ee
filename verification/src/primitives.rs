use crate::graphics::{counter_range, wrapped_id, GroupCounter};
use vstd::prelude::*;

verus! {

/// The fixed catalog of pre-baked meshes a drawable selects by index when
/// it is built.
#[derive(Clone, Copy, PartialEq, Eq, Structural, Debug)]
pub enum Primitive {
    Plane,
    SquarePyramid,
    TrianglePyramid,
    Sphere,
    Nine,
}

impl Primitive {
    /// This primitive's position in the catalog of vertex buffers.
    pub open spec fn index(self) -> usize {
        match self {
            Primitive::Plane => 0,
            Primitive::SquarePyramid => 1,
            Primitive::TrianglePyramid => 2,
            Primitive::Sphere => 3,
            Primitive::Nine => 4,
        }
    }

    /// How many group ids an instance of this primitive allocates: one per
    /// independently erasable face group of its mesh.
    pub open spec fn group_count(self) -> usize {
        match self {
            Primitive::Plane => 1,
            Primitive::SquarePyramid => 5,
            Primitive::TrianglePyramid => 4,
            Primitive::Sphere => 1,
            Primitive::Nine => 1,
        }
    }

    /// How many vertex buffers the catalog holds for this primitive: one
    /// per face group of the baked mesh, except the nine-sided drum, whose
    /// mesh is split into a fan, a rim and one buffer per side panel while
    /// it erases as a single group.
    pub open spec fn buffer_count(self) -> usize {
        match self {
            Primitive::Plane => 1,
            Primitive::SquarePyramid => 5,
            Primitive::TrianglePyramid => 4,
            Primitive::Sphere => 1,
            Primitive::Nine => 11,
        }
    }

    /// The catalog's buffer count for this primitive.
    pub fn buffers(&self) -> (n: usize)
        ensures
            n == self.buffer_count(),
    {
        match *self {
            Primitive::Plane => 1,
            Primitive::SquarePyramid => 5,
            Primitive::TrianglePyramid => 4,
            Primitive::Sphere => 1,
            Primitive::Nine => 11,
        }
    }

    /// Builds one instance of this primitive: its catalog index together
    /// with freshly allocated group ids for its face groups.
    pub fn instantiate(&self, counter: &mut GroupCounter) -> (r: (usize, Vec<u16>))
        ensures
            r.0 == self.index(),
            r.1@.len() == self.group_count(),
            forall|k: int|
                0 <= k < r.1@.len() ==> r.1@[k] == wrapped_id(old(counter).raw() + k),
            final(counter).raw() as int == (old(counter).raw() + self.group_count())
                % counter_range(),
    {
        match *self {
            Primitive::Plane => (0, counter.instantiate(1)),
            Primitive::SquarePyramid => (1, counter.instantiate(5)),
            Primitive::TrianglePyramid => (2, counter.instantiate(4)),
            Primitive::Sphere => (3, counter.instantiate(1)),
            Primitive::Nine => (4, counter.instantiate(1)),
        }
    }
}

} // verus!
