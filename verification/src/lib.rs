//! Verification that an Azure OpenAI upstream does not let its owner capture content.
//!
//! The library holds the rules; whoever uses it makes the requests. [`verification`] drives one
//! verification from reply to action, [`periodic`] says what the outcome of a repeated one means,
//! [`schedule`] drives the task that repeats it, and [`gate`] states what holds of every
//! verification that passes.

pub mod arm;
pub mod checks;
pub mod config;
pub mod diagnostics;
pub mod endpoint;
pub mod environment;
pub mod error;
pub mod gate;
pub mod models;
pub mod percent;
pub mod periodic;
pub mod requests;
pub mod schedule;
pub mod streaming;
pub mod text;
pub mod verification;
pub mod web_url;
