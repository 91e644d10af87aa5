//! Time-tracking core of a command-line client for a hosted task service:
//! time windows, entry aggregation, tracking requests and text reports.

pub mod api;
pub mod args;
pub mod config;
pub mod decimal;
pub mod display;
pub mod entries;
pub mod time;
pub mod track;
