//! A command-line client for a workspace/document REST API: the verified core of
//! its HTTP gateway (retry policy, error reporting, dry-run interception),
//! upload sequencing, MIME lookup and configuration handling.

pub mod text;
pub mod mime;
pub mod error;
pub mod client;
pub mod retry;
pub mod upload;
pub mod config;
pub mod output;
pub mod cli;
pub mod json;
pub mod requests;
