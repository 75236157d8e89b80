//! A verified core for a 2D cellular-automaton simulator running Conway's
//! Game of Life on a fixed-size grid.
//!
//! The crate provides the grid data model with its double-buffered commit
//! cycle, the bounded Moore-neighborhood lookup, the rule engine, a
//! timer-gated step scheduler, and the command gateway that applies one-shot
//! restart/clear requests and a persistent pause toggle.

pub mod control;
pub mod grid;
pub mod neighbors;
pub mod rules;
pub mod scheduler;
pub mod sim;
