//! Decision logic of an interactive release installer.
//!
//! A run asks a release-hosting service for the releases of a repository,
//! lets the user pick a release and one of its assets, downloads the asset
//! and installs it in the way its file name calls for. This crate holds
//! every decision of such a run as verified functions on plain values; the
//! program around it performs the requests and reports their outcomes.

pub mod command;
pub mod error;
pub mod flow;
pub mod model;
pub mod prompt;
pub mod resolve;
pub mod strategy;
pub mod text;
