//! Decision logic of a small bridge between an editor plugin host and `cargo`:
//! which commands to run, which registry URL to fetch, how to read what comes
//! back, and what to report to the host. The library performs no I/O; a driver
//! carries out each action that it asks for and reports what happened.

pub mod command;
pub mod facade;
pub mod guarantees;
pub mod json;
pub mod listing;
pub mod outcome;
pub mod registry;
pub mod text;
