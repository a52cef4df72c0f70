//! Simulation core of a falling-block puzzle game: playfield, active piece,
//! piece generation, and the timing rules that govern movement, rotation,
//! gravity, locking, and line clearing.
//!
//! The driving loop supplies raw key-down booleans and a monotonic timestamp
//! (milliseconds) once per tick; rendering reads the board, the current piece
//! and the shadow piece back out. Everything in between is verified.

pub mod board;
pub mod game;
pub mod geometry;
pub mod input;
pub mod render;
