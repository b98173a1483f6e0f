//! Tests for rule parsing, the grid and ant constructors, and the run
//! parameter helpers.

use langtons_ant::ant::Ant;
use langtons_ant::config::{
    start_point, tick_settings, valid_grid_size, valid_moves_per_second, window_dim,
};
use langtons_ant::facing::{Direction, Facing};
use langtons_ant::grid::{Grid, Row, UNPAINTED};
use langtons_ant::rule::{parse_rule, RuleTable};

#[test]
fn parse_rule_accepts_l_and_r() {
    let bytes: Vec<u8> = b"RL".to_vec();
    let rule = parse_rule(&bytes).expect("RL is a valid rule");
    assert_eq!(rule.len(), 2);
    assert_eq!(rule.lookup(0), Direction::Right);
    assert_eq!(rule.lookup(1), Direction::Left);

    let bytes: Vec<u8> = b"LLRRLR".to_vec();
    let rule = parse_rule(&bytes).expect("LLRRLR is a valid rule");
    assert_eq!(rule.len(), 6);
    assert_eq!(rule.lookup(0), Direction::Left);
    assert_eq!(rule.lookup(3), Direction::Right);
    assert_eq!(rule.lookup(5), Direction::Right);
}

#[test]
fn parse_rule_rejects_other_symbols() {
    let bytes: Vec<u8> = b"RLX".to_vec();
    assert!(parse_rule(&bytes).is_none());
    let bytes: Vec<u8> = b"rl".to_vec();
    assert!(parse_rule(&bytes).is_none());
    let bytes: Vec<u8> = b"R L".to_vec();
    assert!(parse_rule(&bytes).is_none());
}

#[test]
fn parse_rule_rejects_the_empty_sequence() {
    let bytes: Vec<u8> = Vec::new();
    assert!(parse_rule(&bytes).is_none());
}

#[test]
fn rule_table_new_keeps_the_turns() {
    let turns = vec![Direction::Left, Direction::Right, Direction::Left];
    let rule = RuleTable::new(turns);
    assert_eq!(rule.len(), 3);
    assert_eq!(rule.lookup(0), Direction::Left);
    assert_eq!(rule.lookup(1), Direction::Right);
    assert_eq!(rule.lookup(2), Direction::Left);
}

#[test]
fn row_new_fills_every_cell() {
    let row = Row::new(7, 3);
    assert_eq!(row.cells.len(), 7);
    for x in 0..7 {
        assert_eq!(row.cells[x], 3);
    }
}

#[test]
fn grid_new_starts_unpainted() {
    let grid = Grid::new(10, 10, UNPAINTED);
    assert_eq!(grid.dim(), 10);
    for y in 0..10 {
        for x in 0..10 {
            assert_eq!(grid.get(x, y), UNPAINTED);
        }
    }
}

#[test]
fn grid_set_repaints_only_one_cell() {
    let mut grid = Grid::new(10, 10, UNPAINTED);
    grid.set(2, 3, 5);
    assert_eq!(grid.get(2, 3), 5);
    for y in 0..10 {
        for x in 0..10 {
            if (x, y) != (2, 3) {
                assert_eq!(grid.get(x, y), UNPAINTED);
            }
        }
    }
}

#[test]
fn ant_new_faces_north_with_zero_steps() {
    let ant = Ant::new(4, 9);
    assert_eq!((ant.pos_x, ant.pos_y), (4, 9));
    assert_eq!(ant.facing, Facing::North);
    assert!(!ant.stalled);
    assert_eq!(ant.iterations, 0);
}

#[test]
fn grid_size_bounds() {
    assert!(!valid_grid_size(9));
    assert!(valid_grid_size(10));
    assert!(valid_grid_size(150));
    assert!(valid_grid_size(1000));
    assert!(!valid_grid_size(1001));
}

#[test]
fn moves_per_second_settings() {
    for mps in [1, 2, 5, 10, 20, 50, 100, 200, 500, 1000] {
        assert!(valid_moves_per_second(mps));
    }
    for mps in [0, -1, 3, 30, 999, 1001] {
        assert!(!valid_moves_per_second(mps));
    }
}

#[test]
fn tick_settings_table() {
    assert_eq!(tick_settings(1), (1, 1));
    assert_eq!(tick_settings(2), (2, 1));
    assert_eq!(tick_settings(5), (5, 1));
    assert_eq!(tick_settings(10), (10, 1));
    assert_eq!(tick_settings(20), (20, 1));
    assert_eq!(tick_settings(50), (50, 1));
    assert_eq!(tick_settings(100), (10, 10));
    assert_eq!(tick_settings(200), (20, 10));
    assert_eq!(tick_settings(500), (50, 10));
    assert_eq!(tick_settings(1000), (50, 20));
    assert_eq!(tick_settings(7), (1, 1));
}

#[test]
fn window_dim_is_the_product_when_small_enough() {
    assert_eq!(window_dim(150, 5), Some(750));
    assert_eq!(window_dim(1000, 1), Some(1000));
    assert_eq!(window_dim(600, 2), None);
    assert_eq!(window_dim(150, 20), None);
}

#[test]
fn start_point_is_the_centre() {
    assert_eq!(start_point(150), 75);
    assert_eq!(start_point(3), 1);
    assert_eq!(start_point(10), 5);
    assert_eq!(start_point(11), 5);
}
