//! Validation and derivation of the run parameters a driver collects before
//! the engine is constructed: rule symbols are handled by the rule module;
//! here are the grid size, the moves-per-second setting and what follows
//! from them.

use vstd::prelude::*;

verus! {

/// The smallest accepted grid side length, in squares.
pub const MIN_GRID_SIZE: u32 = 10;

/// The largest accepted grid side length, in squares, and also the largest
/// accepted window dimension in pixels.
pub const MAX_GRID_SIZE: u32 = 1000;

/// The supported moves-per-second settings.
pub open spec fn valid_mps(mps: i32) -> bool {
    ||| mps == 1
    ||| mps == 2
    ||| mps == 5
    ||| mps == 10
    ||| mps == 20
    ||| mps == 50
    ||| mps == 100
    ||| mps == 200
    ||| mps == 500
    ||| mps == 1000
}

/// Whether a moves-per-second request is one of the supported settings.
pub fn valid_moves_per_second(mps: i32) -> (r: bool)
    ensures
        r == valid_mps(mps),
{
    mps == 1 || mps == 2 || mps == 5 || mps == 10 || mps == 20 || mps == 50 || mps == 100 || mps
        == 200 || mps == 500 || mps == 1000
}

/// The frame rate and the moves per rendered frame that realise a
/// moves-per-second setting; an unsupported setting falls back to one move
/// at one frame per second.
pub open spec fn spec_tick_settings(mps: i32) -> (u64, i32) {
    if mps == 1 {
        (1u64, 1i32)
    } else if mps == 2 {
        (2u64, 1i32)
    } else if mps == 5 {
        (5u64, 1i32)
    } else if mps == 10 {
        (10u64, 1i32)
    } else if mps == 20 {
        (20u64, 1i32)
    } else if mps == 50 {
        (50u64, 1i32)
    } else if mps == 100 {
        (10u64, 10i32)
    } else if mps == 200 {
        (20u64, 10i32)
    } else if mps == 500 {
        (50u64, 10i32)
    } else if mps == 1000 {
        (50u64, 20i32)
    } else {
        (1u64, 1i32)
    }
}

/// Split a moves-per-second setting into frames per second and moves per
/// frame, whose product is the requested rate.
pub fn tick_settings(mps: i32) -> (r: (u64, i32))
    ensures
        r == spec_tick_settings(mps),
{
    if mps == 1 {
        (1u64, 1i32)
    } else if mps == 2 {
        (2u64, 1i32)
    } else if mps == 5 {
        (5u64, 1i32)
    } else if mps == 10 {
        (10u64, 1i32)
    } else if mps == 20 {
        (20u64, 1i32)
    } else if mps == 50 {
        (50u64, 1i32)
    } else if mps == 100 {
        (10u64, 10i32)
    } else if mps == 200 {
        (20u64, 10i32)
    } else if mps == 500 {
        (50u64, 10i32)
    } else if mps == 1000 {
        (50u64, 20i32)
    } else {
        (1u64, 1i32)
    }
}

/// Whether a grid side length, in squares, lies in the accepted range.
pub fn valid_grid_size(grid_size: u32) -> (r: bool)
    ensures
        r == (MIN_GRID_SIZE <= grid_size <= MAX_GRID_SIZE),
{
    MIN_GRID_SIZE <= grid_size && grid_size <= MAX_GRID_SIZE
}

/// The window dimension in pixels for a grid of `grid_size` squares drawn at
/// `square_px` pixels a square: their product, or `None` when it would
/// exceed the largest supported window.
pub fn window_dim(grid_size: u32, square_px: u32) -> (r: Option<u32>)
    requires
        grid_size <= MAX_GRID_SIZE,
        square_px <= 20,
    ensures
        r is Some <==> grid_size * square_px <= MAX_GRID_SIZE,
        r matches Some(d) ==> d == grid_size * square_px,
{
    proof {
        assert((grid_size as int) * (square_px as int) <= 20000) by (nonlinear_arith)
            requires
                grid_size <= 1000,
                square_px <= 20,
        ;
    }
    let d = grid_size * square_px;
    if d <= MAX_GRID_SIZE {
        Some(d)
    } else {
        None
    }
}

/// The centre cell of a grid with the given side length: where the ant
/// starts.
pub fn start_point(grid_size: u32) -> (r: u32)
    ensures
        r == grid_size / 2,
{
    grid_size / 2
}

} // verus!
