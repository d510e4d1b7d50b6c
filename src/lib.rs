//! Watchdog for an interactive worker running in a terminal pane: classifies
//! pane text as active or stalled and schedules bounded recovery commands.
pub mod activity;
pub mod policy;
pub mod scheduler;
pub mod text;
pub mod timing;
pub mod animation;
pub mod state;
pub mod app;
pub mod args;
pub mod config;
pub mod llm;
pub mod monitor;
pub mod tmux;
