//! Turn instructions, headings, and the table that composes them.

use vstd::prelude::*;

verus! {

/// A turn instruction: the way the ant rotates on the colour it reads.
#[derive(Clone, Copy, Debug, PartialEq, Eq, Structural)]
pub enum Direction {
    Left,
    Right,
}

/// The ant's current heading on the grid. North points towards smaller `y`,
/// East towards larger `x`.
#[derive(Clone, Copy, Debug, PartialEq, Eq, Structural)]
pub enum Facing {
    North,
    East,
    South,
    West,
}

/// The heading that results from composing a heading with a turn.
pub open spec fn turn_facing(f: Facing, d: Direction) -> Facing {
    match (f, d) {
        (Facing::North, Direction::Left) => Facing::West,
        (Facing::North, Direction::Right) => Facing::East,
        (Facing::East, Direction::Left) => Facing::North,
        (Facing::East, Direction::Right) => Facing::South,
        (Facing::South, Direction::Left) => Facing::East,
        (Facing::South, Direction::Right) => Facing::West,
        (Facing::West, Direction::Left) => Facing::South,
        (Facing::West, Direction::Right) => Facing::North,
    }
}

/// Horizontal unit displacement of a heading.
pub open spec fn delta_x(f: Facing) -> int {
    match f {
        Facing::East => 1,
        Facing::West => -1,
        _ => 0,
    }
}

/// Vertical unit displacement of a heading.
pub open spec fn delta_y(f: Facing) -> int {
    match f {
        Facing::North => -1,
        Facing::South => 1,
        _ => 0,
    }
}

/// Compose a heading with a turn.
pub fn turned(f: Facing, d: Direction) -> (r: Facing)
    ensures
        r == turn_facing(f, d),
{
    match (f, d) {
        (Facing::North, Direction::Left) => Facing::West,
        (Facing::North, Direction::Right) => Facing::East,
        (Facing::East, Direction::Left) => Facing::North,
        (Facing::East, Direction::Right) => Facing::South,
        (Facing::South, Direction::Left) => Facing::East,
        (Facing::South, Direction::Right) => Facing::West,
        (Facing::West, Direction::Left) => Facing::South,
        (Facing::West, Direction::Right) => Facing::North,
    }
}

/// The full facing-composition table, together with the unit displacement
/// that each resulting heading attempts afterwards. Every turn rotates the
/// heading by a quarter circle, so this table fixes the geometry of the walk.
pub proof fn lemma_facing_table()
    ensures
        turn_facing(Facing::North, Direction::Left) == Facing::West,
        turn_facing(Facing::North, Direction::Right) == Facing::East,
        turn_facing(Facing::East, Direction::Left) == Facing::North,
        turn_facing(Facing::East, Direction::Right) == Facing::South,
        turn_facing(Facing::South, Direction::Left) == Facing::East,
        turn_facing(Facing::South, Direction::Right) == Facing::West,
        turn_facing(Facing::West, Direction::Left) == Facing::South,
        turn_facing(Facing::West, Direction::Right) == Facing::North,
        delta_x(Facing::North) == 0 && delta_y(Facing::North) == -1,
        delta_x(Facing::East) == 1 && delta_y(Facing::East) == 0,
        delta_x(Facing::South) == 0 && delta_y(Facing::South) == 1,
        delta_x(Facing::West) == -1 && delta_y(Facing::West) == 0,
{
}

} // verus!
