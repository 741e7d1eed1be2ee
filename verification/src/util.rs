use vstd::prelude::*;

verus! {

/// A movement direction relative to the player's facing.
#[derive(Clone, Copy, PartialEq, Eq, Structural, Debug)]
pub enum Direction {
    Forward,
    Backward,
    Left,
    Right,
}

impl Direction {
    /// True when the direction lies on the forward/backward axis.
    pub open spec fn on_walk_axis(self) -> bool {
        self is Forward || self is Backward
    }

    /// False exactly when both directions lie on the forward/backward axis.
    #[inline]
    pub fn orthogonal(self, other: Self) -> (r: bool)
        ensures
            r == !(self.on_walk_axis() && other.on_walk_axis()),
    {
        match (self, other) {
            (Direction::Forward, Direction::Forward)
            | (Direction::Forward, Direction::Backward)
            | (Direction::Backward, Direction::Forward)
            | (Direction::Backward, Direction::Backward) => false,
            _ => true,
        }
    }

    /// The negation of `orthogonal`.
    #[inline]
    pub fn perpendicular(self, other: Self) -> (r: bool)
        ensures
            r == (self.on_walk_axis() && other.on_walk_axis()),
    {
        !self.orthogonal(other)
    }
}

/// Everything above the lowest byte of a packed value: the quotient by 256.
pub fn high_byte(b: u32) -> (r: u32)
    ensures
        r == b / 256,
{
    proof {
        assert(b >> 8u32 == b / 256) by (bit_vector);
    }
    b >> 8u32
}

/// The lowest byte of a packed value: the remainder by 256.
pub fn low_byte(b: u32) -> (r: u32)
    ensures
        r == b % 256,
{
    proof {
        assert(b & 0xff == b % 256) by (bit_vector);
    }
    b & 0xff
}

} // verus!
