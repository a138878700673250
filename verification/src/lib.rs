//! The decisions of a chess study application: what a click on the board means, what an
//! exercise asks next, what the engine is asked for, and what every line on the screen says.
//!
//! Nothing here draws, reads a file or keeps a clock. A front end hands over plain values
//! (strings, numbers, the results of its own calls) and takes plain values back.

pub mod announce;
pub mod board;
pub mod charts;
pub mod chess;
pub mod commands;
pub mod dates;
pub mod drill_view;
pub mod effect;
pub mod endgame_view;
pub mod engine_worker;
pub mod exercise;
pub mod figures;
pub mod import;
pub mod numbers;
pub mod pieces;
pub mod play_view;
pub mod progress_view;
pub mod promotion;
pub mod reports;
pub mod rules;
pub mod selftest;
pub mod sound;
pub mod study_view;
pub mod style;
pub mod text;
pub mod trainer;
pub mod window;
