//! Runs Rust crates: finds the crate that is asked for, gets its sources or a prebuilt
//! binary, builds what has to be built, and hands the binary over.
//!
//! The library decides; it opens no file, makes no request and starts no process. What has to
//! be done outside comes back from it as an action, and what came of it goes in as an event
//! or an argument. All decisions are stated in contracts over mathematical models and proved.
//!
//! - [`cli`], [`config`], [`layers`], [`load`]: what is asked for.
//! - [`resolver`], [`version`], [`registry`], [`cratespec`]: which exact crate that is.
//! - [`downloader`], [`cache`], [`git`], [`git_client`], [`ca_bootstrap`], [`http`]: where its
//!   sources come from and are kept.
//! - [`bin_resolver`], [`providers`]: whether there is a prebuilt binary.
//! - [`builder`]: what is built.
//! - [`run`], [`messages`], [`logging`], [`error`]: the run as a whole.
//! - [`text`], [`paths`], [`urls`], [`digest`]: what the rest is made of.
//! - [`laws`]: what holds of all of it.
pub mod bin_resolver;
pub mod builder;
pub mod ca_bootstrap;
pub mod cache;
pub mod cli;
pub mod config;
pub mod cratespec;
pub mod digest;
pub mod downloader;
pub mod error;
pub mod git;
pub mod git_client;
pub mod http;
pub mod laws;
pub mod layers;
pub mod load;
pub mod logging;
pub mod messages;
pub mod paths;
pub mod providers;
pub mod registry;
pub mod resolver;
pub mod run;
pub mod text;
pub mod urls;
pub mod version;
