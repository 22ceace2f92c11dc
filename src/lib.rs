//! Helpers for a server that manages an installed Foundry VTT application:
//! locating the application's entry script and interpreting the outcome of
//! external commands.
pub mod command;
pub mod paths;
