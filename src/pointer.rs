//! The instruction pointer: a position in the field and a direction of travel.

use vstd::prelude::*;

verus! {

/// A direction of travel.
#[derive(Clone, Copy, Debug, PartialEq, Eq, Structural)]
pub enum Delta {
    Right,
    Left,
    Down,
    Up,
}

/// One step forward along an axis of `n` positions, back to `0` after the last.
pub open spec fn wrap_forward(v: usize, n: usize) -> usize {
    if n > 0 && v < n - 1 {
        (v + 1) as usize
    } else {
        0
    }
}

/// One step back along an axis of `n` positions, to the last after `0`.
pub open spec fn wrap_back(v: usize, n: usize) -> usize {
    if v > 0 {
        (v - 1) as usize
    } else if n > 0 {
        (n - 1) as usize
    } else {
        0
    }
}

/// The instruction pointer.
#[derive(Clone, Copy, Debug, PartialEq, Eq, Structural)]
pub struct FungePointer {
    pub x: usize,
    pub y: usize,
    pub delta: Delta,
}

impl FungePointer {
    /// On the grid: each coordinate is below its axis' size, or `0` on an empty axis.
    pub open spec fn within(self, width: usize, height: usize) -> bool {
        &&& (self.x < width || self.x == 0)
        &&& (self.y < height || self.y == 0)
    }

    /// The pointer one cell further in its direction on a `width` by `height`
    /// grid, wrapping at the edges.
    pub open spec fn moved(self, width: usize, height: usize) -> FungePointer {
        match self.delta {
            Delta::Right => FungePointer { x: wrap_forward(self.x, width), ..self },
            Delta::Left => FungePointer { x: wrap_back(self.x, width), ..self },
            Delta::Down => FungePointer { y: wrap_forward(self.y, height), ..self },
            Delta::Up => FungePointer { y: wrap_back(self.y, height), ..self },
        }
    }

    /// Moving keeps a pointer on the grid.
    pub proof fn lemma_moved_within(self, width: usize, height: usize)
        requires
            self.within(width, height),
        ensures
            self.moved(width, height).within(width, height),
    {
    }

    /// The pointer at the top-left corner, travelling right.
    pub fn new() -> (r: Self)
        ensures
            r == (FungePointer { x: 0, y: 0, delta: Delta::Right }),
    {
        FungePointer { x: 0, y: 0, delta: Delta::Right }
    }

    /// Moves one cell in the current direction, wrapping at the edges.
    pub fn advance(&mut self, width: usize, height: usize)
        ensures
            *final(self) == old(self).moved(width, height),
            old(self).within(width, height) ==> final(self).within(width, height),
    {
        match self.delta {
            Delta::Right => {
                self.x = if width > 0 && self.x < width - 1 {
                    self.x + 1
                } else {
                    0
                };
            },
            Delta::Left => {
                self.x = if self.x > 0 {
                    self.x - 1
                } else if width > 0 {
                    width - 1
                } else {
                    0
                };
            },
            Delta::Down => {
                self.y = if height > 0 && self.y < height - 1 {
                    self.y + 1
                } else {
                    0
                };
            },
            Delta::Up => {
                self.y = if self.y > 0 {
                    self.y - 1
                } else if height > 0 {
                    height - 1
                } else {
                    0
                };
            },
        }
    }
}

} // verus!
