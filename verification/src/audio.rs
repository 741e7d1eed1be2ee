use vstd::prelude::*;

verus! {

/// The catalog of sounds gameplay can trigger; a sound's position in this
/// catalog indexes the loaded sound buffers.
#[derive(Clone, Copy, PartialEq, Eq, Structural, Debug)]
pub enum Sound {
    Shoot,
}

} // verus!
