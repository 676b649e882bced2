//! Decision logic of an Sv2 compliance tester.
//!
//! The library holds everything that decides: which scenarios form a suite,
//! what each scenario sends and how it judges the endpoint's replies, how a
//! batch configuration expands into targets, and how a run is summarised.
//! Network I/O, timers and the command line live with the caller, which
//! performs the actions the library asks for and hands back what happened.

pub mod app_type;
pub mod client;
pub mod config;
pub mod endpoint;
pub mod runner;
pub mod scenarios;
pub mod text;
