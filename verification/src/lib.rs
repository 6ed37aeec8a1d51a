//! Mirrors the repositories of a GitHub account into a Gitea instance.
//!
//! The library holds every decision of a synchronisation run and performs no
//! I/O of its own: it describes the HTTP requests to send and is told what
//! came back.

pub mod collector;
pub mod config;
pub mod error;
pub mod listing;
pub mod mirror;
pub mod orchestrator;
pub mod repo;
pub mod request;
pub mod run;
pub mod scripted;
pub mod text;

pub use collector::collect_github_repos;
pub use config::{CGitHub, CGitea, Config};
