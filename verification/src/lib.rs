//! A Conway's Game of Life evolution engine on a fixed-size toroidal grid.
//!
//! The engine owns the grid data structure, the living-neighbor count under
//! edge wraparound, and the generation transition; rendering and timing are
//! left to the caller.

pub mod cli;
pub mod game;
pub mod terminal;
