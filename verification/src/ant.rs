//! The ant's state: position, heading, stall flag and iteration counter.

use vstd::prelude::*;

use crate::facing::Facing;

verus! {

/// The mobile automaton. `stalled` is terminal: once set it stays set and
/// stepping becomes a no-op. `iterations` counts completed steps and
/// saturates: instead of wrapping at the maximum it forces a stall.
#[derive(Clone, Copy, Debug, PartialEq, Eq, Structural)]
pub struct Ant {
    pub pos_x: usize,
    pub pos_y: usize,
    pub facing: Facing,
    pub stalled: bool,
    pub iterations: u64,
}

impl Ant {
    /// A fresh ant at `(x, y)`, facing north, not stalled, with no steps
    /// taken yet.
    pub fn new(x: usize, y: usize) -> (a: Ant)
        ensures
            a == (Ant {
                pos_x: x,
                pos_y: y,
                facing: Facing::North,
                stalled: false,
                iterations: 0,
            }),
    {
        Ant { pos_x: x, pos_y: y, facing: Facing::North, stalled: false, iterations: 0 }
    }
}

} // verus!
