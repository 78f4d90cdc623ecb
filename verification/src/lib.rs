//! Simulation core of a two-player Pong variant.
//!
//! A match is one ball, two paddles and a state. Players give commands, which
//! `Game::handle_command` delivers; the caller advances the match with
//! `Game::update`, one tick at a time, and paints what `Game::draw` lays out.
//! A paddle grows when it blocks the ball and shrinks a little with every
//! tick; a player wins when their paddle has grown to more than twice its
//! first length, or when the other paddle has become shorter than it is wide.
//!
//! Positions, lengths and speeds are fixed-point numbers, thousandths of a
//! pixel in an `i64` (module `fixed`), so that a match replays alike on every
//! machine. No function of the library panics: sums saturate, a command to a
//! player that the match does not have is turned down with an error.
//!
//! The contracts of `Game` speak of its model `GameView`, which holds the
//! paddles as a sequence, and module `laws` proves what holds of every box,
//! command and tick.

pub mod command;
pub mod config;
pub mod controls;
pub mod entity;
pub mod fixed;
pub mod frame;
pub mod game;
pub mod geometry;
pub mod laws;
pub mod vector;
