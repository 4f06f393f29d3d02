use vstd::prelude::*;

verus! {

/// Per-slot version counter. It wraps around on overflow, so a slot that is
/// reused 65536 times hands out a generation it has handed out before.
pub type Generation = u16;

/// A copyable reference to a value held in a `HandleMap`: the position of its
/// slot, and the generation that slot had when the handle was issued.
///
/// Handles compare field by field and order by position first, then by
/// generation. Whether a handle is still usable is a question for the map that
/// issued it.
#[derive(Clone, Copy, Debug, PartialEq, Eq, Structural, Hash, PartialOrd, Ord)]
pub struct Handle {
    index: usize,
    generation: Generation,
}

impl Handle {
    /// Position of the slot this handle refers to.
    pub closed spec fn slot(self) -> usize {
        self.index
    }

    /// Generation of the slot at the time this handle was issued.
    pub closed spec fn version(self) -> Generation {
        self.generation
    }

    pub(crate) fn new(index: usize, generation: Generation) -> (h: Handle)
        ensures
            h.slot() == index,
            h.version() == generation,
    {
        Handle { index, generation }
    }

    /// The slot position, usable as a dense index into arrays kept beside the map.
    pub fn index(&self) -> (r: usize)
        ensures
            r == self.slot(),
    {
        self.index
    }

    pub(crate) fn generation(&self) -> (r: Generation)
        ensures
            r == self.version(),
    {
        self.generation
    }
}

} // verus!
