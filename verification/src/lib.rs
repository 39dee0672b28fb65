//! Core logic of a crafting automation tool: a background orchestrator that
//! repeats a scripted sequence of simulated key presses, renews time-limited
//! consumable effects, tracks completion progress, and coordinates with a
//! foreground control surface through a pair of run-state flags and an
//! ordered stream of progress events.
//!
//! Everything here is pure decision logic: the orchestrator is a step
//! machine that turns the flag values and the current clock reading into an
//! ordered script of actions (key presses, delays, progress events, flag
//! writes). Performing those actions — pressing keys, sleeping, drawing the
//! terminal, reading the configuration file — is left to the surrounding
//! binary.

pub mod config;
pub mod control;
pub mod events;
pub mod keys;
pub mod profile;
pub mod reporter;
pub mod sequencer;
pub mod session;
pub mod state;
pub mod timer;
