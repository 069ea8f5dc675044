//! Decision and formatting logic of the Chef Delivery command-line client.
//!
//! The library holds what the client computes: which command a parsed
//! command line selects, which paths, branches and URLs a job uses, the
//! order in which the steps of `init` and of a job run, and the lines the
//! client prints. Reading files, running git, talking to the Delivery
//! server and printing are left to the program around it.

pub mod error;
pub mod version;
pub mod clock;
pub mod message;
pub mod review;
pub mod paths;
pub mod job;
pub mod command;
pub mod init;
pub mod project;
pub mod api;
pub mod cloning;
pub mod pipeline;
