//! Core logic of a "Simon"-style memory game.
//!
//! The crate has two parts: [`observable`], a minimal reactive cell that
//! notifies subscribers on every write, and [`game`], the game engine: a
//! state machine that grows a signal sequence round by round, replays it
//! step by step, and validates the player's input against it.
//!
//! The engine performs no I/O and draws no randomness itself: the driver
//! supplies each fresh signal and performs the timed playback steps and
//! feedback pulses that the engine's return values call for.

pub mod game;
pub mod observable;
