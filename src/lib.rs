//! A Pomodoro timer: a clock-driven state machine over work and break phases.
pub mod timer;
pub mod engine;
pub mod laws;
pub mod manager;
pub mod commands;
pub mod statistics;
