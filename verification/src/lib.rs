//! Conway's Game of Life on a fixed-size grid: the cells, the neighbourhood
//! count, the transition rule, and an engine with a pausable step clock.

pub mod grid;
pub mod laws;
pub mod rules;
pub mod simulation;
