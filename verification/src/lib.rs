//! The rules of Tong, the kitchen re-skin of Pong: who scores, what each tong's jaw
//! is asked for and how its clip machine answers, which balls are in play, how the
//! menus move, and which achievements a finished match earns.
//!
//! Everything here is the game's own discrete logic, stated over integers, enums,
//! entity ids and clip names. Positions, speeds and timers are the engine's floats and
//! stay with the program that drives the engine; what it measures reaches this crate
//! as the classification the rules read.

pub mod types;
pub mod clips;
pub mod jaw;
pub mod jaws;
pub mod balls;
pub mod game;
pub mod scoring;
pub mod flow;
pub mod menu;
pub mod achievements;
pub mod power_ups;
pub mod machines;
pub mod names;
pub mod layout;
pub mod ui;
pub mod paddles;
