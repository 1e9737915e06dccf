//! A two-player subtraction game over a shared pile of pebbles, with an
//! automated opponent that plays at random or optimally.
pub mod io;
pub mod strategy;
pub mod game;
pub mod laws;
