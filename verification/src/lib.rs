//! ghpick fetches a single file from a public source-hosting service by
//! `owner/repo/path` and branch, and saves it under a destination directory,
//! showing a spinner while the download runs.
//!
//! This crate holds the logic: resolving the input path into a remote
//! locator and a local file name, building the request URL, classifying the
//! response, the spinner's state machine, and the orchestration of the run
//! as a step function from state and event to next state and action. The
//! surrounding program performs the network and file-system work the steps
//! ask for and feeds the results back in as events.

pub mod errors;
pub mod fetcher;
pub mod indicator;
pub mod orchestrator;
pub mod resolver;
pub mod saver;
