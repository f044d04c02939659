//! Sedentary-reminder core.
//!
//! The crate holds what a stand-up reminder decides and computes: the countdown and
//! the reminder session as a state machine ([`scheduler`]), the event log with its
//! retention policy ([`events`]), the hourly analytics over that log ([`analytics`]),
//! the reporting periods ([`period`]), the settings and their normalisation
//! ([`config`], [`commands`]), the choice of prompts ([`tips`]) and the export formats
//! ([`export`]). Clocks, windows and files are the caller's: every function takes the
//! time it works with and hands back what is to be shown or stored.

pub mod analytics;
pub mod commands;
pub mod config;
pub mod events;
pub mod export;
pub mod locale;
pub mod period;
pub mod scheduler;
pub mod state;
pub mod text;
pub mod tips;
