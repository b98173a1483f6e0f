//! A generalized multi-colour Langton's ant: a mobile automaton that walks a
//! bounded square grid, turning according to a rule indexed by the colour of
//! the cell it occupies and repainting that cell to the next colour in a
//! cycle.
//!
//! The crate holds the stepping engine: the rule table, the grid of colour
//! indices, the ant's state, and the operation that advances the simulation
//! one discrete move at a time under strict boundary and overflow semantics.
//! Prompting, palette colours and rendering are left to a driver, which only
//! needs to read cell colours, the iteration count and the stall flag.

pub mod ant;
pub mod config;
pub mod facing;
pub mod grid;
pub mod rule;
pub mod stepper;
