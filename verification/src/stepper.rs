//! The stepping engine: advances ant and grid by one discrete move under
//! strict boundary and overflow semantics, and by any number of such moves.

use vstd::prelude::*;

use crate::ant::Ant;
use crate::facing::Direction;
use crate::facing::Facing;
use crate::facing::delta_x;
use crate::facing::delta_y;
use crate::facing::turn_facing;
use crate::facing::turned;
use crate::grid::Grid;
use crate::grid::UNPAINTED;
use crate::rule::RuleTable;

verus! {

/// The colour index a step works from: the colour stored under the ant, with
/// the unpainted sentinel standing in for colour 0.
pub open spec fn colour_read(a: Ant, g: Seq<Seq<usize>>) -> int {
    if g[a.pos_y as int][a.pos_x as int] == UNPAINTED {
        0
    } else {
        g[a.pos_y as int][a.pos_x as int] as int
    }
}

/// The heading the ant takes this step: its current heading composed with the
/// turn that the rule assigns to the colour read under it.
pub open spec fn facing_after_turn(a: Ant, g: Seq<Seq<usize>>, rule: Seq<Direction>) -> Facing {
    turn_facing(a.facing, rule[colour_read(a, g)])
}

/// Whether the unit move along the new heading keeps the ant on the grid.
pub open spec fn step_stays_in_bounds(a: Ant, g: Seq<Seq<usize>>, rule: Seq<Direction>) -> bool {
    let f2 = facing_after_turn(a, g, rule);
    &&& 0 <= a.pos_x + delta_x(f2) < g.len()
    &&& 0 <= a.pos_y + delta_y(f2) < g.len()
}

/// What the engine maintains between steps: a non-empty rule, a square grid,
/// the ant on the grid, and every cell either unpainted or holding a colour
/// index below the rule length.
pub open spec fn engine_inv(a: Ant, g: Seq<Seq<usize>>, rule: Seq<Direction>) -> bool {
    &&& 1 <= rule.len() <= usize::MAX
    &&& g.len() <= usize::MAX
    &&& a.pos_x < g.len()
    &&& a.pos_y < g.len()
    &&& forall|y: int| 0 <= y < g.len() ==> (#[trigger] g[y]).len() == g.len()
    &&& forall|y: int, x: int|
        0 <= y < g.len() && 0 <= x < g.len()
            ==> ((#[trigger] g[y][x]) == UNPAINTED || g[y][x] < rule.len())
}

/// One discrete move of the automaton. A stalled ant is left alone. An
/// active ant repaints the cell under it with the successor of the colour it
/// read, modulo the rule length; turns as the rule directs for that colour;
/// then tries the unit move along its new heading, stalling in place if the
/// move would leave the grid. The step counter saturates: at its maximum it
/// stays put and the ant stalls instead.
pub open spec fn spec_step(a: Ant, g: Seq<Seq<usize>>, rule: Seq<Direction>) -> (Ant, Seq<
    Seq<usize>,
>) {
    if a.stalled {
        (a, g)
    } else {
        let next_c = ((colour_read(a, g) + 1) % (rule.len() as int)) as usize;
        let g2 = g.update(a.pos_y as int, g[a.pos_y as int].update(a.pos_x as int, next_c));
        let f2 = facing_after_turn(a, g, rule);
        let moved = step_stays_in_bounds(a, g, rule);
        let saturated = a.iterations == u64::MAX;
        let a2 = Ant {
            pos_x: if moved {
                (a.pos_x + delta_x(f2)) as usize
            } else {
                a.pos_x
            },
            pos_y: if moved {
                (a.pos_y + delta_y(f2)) as usize
            } else {
                a.pos_y
            },
            facing: f2,
            stalled: !moved || saturated,
            iterations: if saturated {
                a.iterations
            } else {
                (a.iterations + 1) as u64
            },
        };
        (a2, g2)
    }
}

/// The state after `k` consecutive moves.
pub open spec fn spec_advance(a: Ant, g: Seq<Seq<usize>>, rule: Seq<Direction>, k: nat) -> (
    Ant,
    Seq<Seq<usize>>,
)
    decreases k,
{
    if k == 0 {
        (a, g)
    } else {
        let prev = spec_advance(a, g, rule, (k - 1) as nat);
        spec_step(prev.0, prev.1, rule)
    }
}

/// Every step preserves the engine invariant, and never changes the grid's
/// dimension. In particular a painted cell always holds a colour index in
/// `[0, rule.len())`, however many steps have run.
pub proof fn lemma_step_preserves_inv(a: Ant, g: Seq<Seq<usize>>, rule: Seq<Direction>)
    requires
        engine_inv(a, g, rule),
    ensures
        ({
            let (a2, g2) = spec_step(a, g, rule);
            &&& engine_inv(a2, g2, rule)
            &&& g2.len() == g.len()
        }),
{
    if !a.stalled {
        let (a2, g2) = spec_step(a, g, rule);
        let y = a.pos_y as int;
        let x = a.pos_x as int;
        let n = rule.len() as int;
        let next = (colour_read(a, g) + 1) % n;
        assert(0 <= next < n) by {
            assert(0 <= colour_read(a, g) + 1);
            assert(n >= 1);
        }
        assert forall|yy: int| 0 <= yy < g2.len() implies (#[trigger] g2[yy]).len() == g2.len() by {
            assert(g[yy].len() == g.len());
        }
        assert forall|yy: int, xx: int|
            0 <= yy < g2.len() && 0 <= xx < g2.len() implies ((#[trigger] g2[yy][xx]) == UNPAINTED
            || g2[yy][xx] < rule.len()) by {
            if yy == y && xx == x {
                assert(g2[yy][xx] == next as usize);
            } else {
                assert(g2[yy][xx] == g[yy][xx]);
            }
        }
    }
}

/// One executable move of the automaton: exactly `spec_step`, applied in
/// place to the ant and the grid.
pub fn compute_ant_position(ant: &mut Ant, grid: &mut Grid, rule: &RuleTable)
    requires
        engine_inv(*old(ant), old(grid)@, rule@),
    ensures
        (*final(ant), final(grid)@) == spec_step(*old(ant), old(grid)@, rule@),
        engine_inv(*final(ant), final(grid)@, rule@),
{
    proof {
        lemma_step_preserves_inv(*old(ant), old(grid)@, rule@);
    }
    if ant.stalled {
        return;
    }
    let x = ant.pos_x;
    let y = ant.pos_y;
    let mut cell_clr_idx = grid.get(x, y);
    if cell_clr_idx == UNPAINTED {
        cell_clr_idx = 0;
    }
    let ant_dir = rule.lookup(cell_clr_idx);
    let n = rule.len();
    let next_c = (cell_clr_idx + 1) % n;
    grid.set(x, y, next_c);
    let new_facing = turned(ant.facing, ant_dir);
    ant.facing = new_facing;
    let dim = grid.dim();
    match new_facing {
        Facing::North => {
            if y == 0 {
                ant.stalled = true;
            } else {
                ant.pos_y = y - 1;
            }
        },
        Facing::East => {
            if x == dim - 1 {
                ant.stalled = true;
            } else {
                ant.pos_x = x + 1;
            }
        },
        Facing::South => {
            if y == dim - 1 {
                ant.stalled = true;
            } else {
                ant.pos_y = y + 1;
            }
        },
        Facing::West => {
            if x == 0 {
                ant.stalled = true;
            } else {
                ant.pos_x = x - 1;
            }
        },
    }
    if ant.iterations == u64::MAX {
        ant.stalled = true;
    } else {
        ant.iterations = ant.iterations + 1;
    }
}

/// Advance the simulation by `k` consecutive moves: the "moves per tick"
/// operation a driver calls once per rendered frame.
pub fn advance(ant: &mut Ant, grid: &mut Grid, rule: &RuleTable, k: u64)
    requires
        engine_inv(*old(ant), old(grid)@, rule@),
    ensures
        (*final(ant), final(grid)@) == spec_advance(*old(ant), old(grid)@, rule@, k as nat),
        engine_inv(*final(ant), final(grid)@, rule@),
{
    let ghost a0 = *ant;
    let ghost g0 = grid@;
    let mut i: u64 = 0;
    while i < k
        invariant
            i <= k,
            engine_inv(*ant, grid@, rule@),
            (*ant, grid@) == spec_advance(a0, g0, rule@, i as nat),
        decreases k - i,
    {
        compute_ant_position(ant, grid, rule);
        i = i + 1;
        proof {
            let prev = spec_advance(a0, g0, rule@, (i - 1) as nat);
            assert(spec_advance(a0, g0, rule@, i as nat) == spec_step(prev.0, prev.1, rule@));
        }
    }
}

/// Stepping is deterministic: equal rules and equal starting states yield
/// equal states after any number of moves.
pub proof fn lemma_stepping_deterministic(
    a1: Ant,
    g1: Seq<Seq<usize>>,
    r1: Seq<Direction>,
    a2: Ant,
    g2: Seq<Seq<usize>>,
    r2: Seq<Direction>,
    k: nat,
)
    requires
        a1 == a2,
        g1 == g2,
        r1 == r2,
    ensures
        spec_advance(a1, g1, r1, k) == spec_advance(a2, g2, r2, k),
{
}

/// Stalling is terminal: once the ant is stalled, any number of further moves
/// leaves ant and grid completely unchanged.
pub proof fn lemma_stalled_terminal(a: Ant, g: Seq<Seq<usize>>, rule: Seq<Direction>, k: nat)
    requires
        a.stalled,
    ensures
        spec_advance(a, g, rule, k) == (a, g),
    decreases k,
{
    if k > 0 {
        lemma_stalled_terminal(a, g, rule, (k - 1) as nat);
    }
}

/// A move that is not a no-op repaints exactly the cell under the ant: the
/// colour read there (the sentinel counting as colour 0) advances by one
/// modulo the rule length, so a visited cell always holds a colour index in
/// `[0, rule.len())` and cycles through the palette in round-robin order,
/// while every other cell keeps its colour.
pub proof fn lemma_cell_round_robin(a: Ant, g: Seq<Seq<usize>>, rule: Seq<Direction>)
    requires
        engine_inv(a, g, rule),
        !a.stalled,
    ensures
        ({
            let g2 = spec_step(a, g, rule).1;
            let y = a.pos_y as int;
            let x = a.pos_x as int;
            &&& g2[y][x] == (colour_read(a, g) + 1) % (rule.len() as int)
            &&& 0 <= g2[y][x] < rule.len()
            &&& forall|yy: int, xx: int|
                0 <= yy < g.len() && 0 <= xx < g.len() && !(yy == y && xx == x)
                    ==> #[trigger] g2[yy][xx] == g[yy][xx]
        }),
{
    let g2 = spec_step(a, g, rule).1;
    let y = a.pos_y as int;
    let x = a.pos_x as int;
    let n = rule.len() as int;
    assert(0 <= (colour_read(a, g) + 1) % n < n);
    assert forall|yy: int, xx: int|
        0 <= yy < g.len() && 0 <= xx < g.len() && !(yy == y && xx == x)
            implies #[trigger] g2[yy][xx] == g[yy][xx] by {
        assert(g[yy].len() == g.len());
    }
}

/// A move whose turn would carry the ant off the grid stalls it on the spot:
/// the ant keeps its position, and nothing besides the one cell it repainted
/// changes on the grid.
pub proof fn lemma_boundary_stall(a: Ant, g: Seq<Seq<usize>>, rule: Seq<Direction>)
    requires
        engine_inv(a, g, rule),
        !a.stalled,
        !step_stays_in_bounds(a, g, rule),
    ensures
        ({
            let (a2, g2) = spec_step(a, g, rule);
            &&& a2.stalled
            &&& a2.pos_x == a.pos_x
            &&& a2.pos_y == a.pos_y
            &&& forall|yy: int, xx: int|
                0 <= yy < g.len() && 0 <= xx < g.len() && !(yy == a.pos_y as int && xx
                    == a.pos_x as int) ==> #[trigger] g2[yy][xx] == g[yy][xx]
        }),
{
    lemma_cell_round_robin(a, g, rule);
}

/// A move taken with the iteration counter at its maximum stalls the ant and
/// leaves the counter unchanged, rather than wrapping it.
pub proof fn lemma_counter_saturation(a: Ant, g: Seq<Seq<usize>>, rule: Seq<Direction>)
    requires
        engine_inv(a, g, rule),
        !a.stalled,
        a.iterations == u64::MAX,
    ensures
        spec_step(a, g, rule).0.stalled,
        spec_step(a, g, rule).0.iterations == u64::MAX,
{
}

} // verus!
