//! Verified core of a Google Workspace command-line client: request
//! construction, pagination bookkeeping, response shaping and text handling.

pub mod utils;
pub mod cli;
pub mod client;
pub mod commands;
pub mod output;
