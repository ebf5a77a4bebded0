//! Core logic of a game-launcher provisioning layer.
//!
//! The crate covers two concerns:
//! - the Java-runtime provisioning pipeline (discover a matching build,
//!   download, extract, place, verify), expressed as verified decision and
//!   computation steps plus a progress-tracked orchestrator state machine;
//! - the version-manifest merge that reconciles a mod-loader partial
//!   manifest with the vanilla manifest it extends.
//!
//! All I/O (HTTP, filesystem, process spawning) lives outside this crate;
//! the functions here consume the plain values such work produces and are
//! verified over them.

pub mod archive;
pub mod catalog;
pub mod config;
pub mod download;
pub mod errors;
pub mod install;
pub mod jre;
pub mod manifest;
pub mod memory;
pub mod modded;
pub mod orchestrator;
pub mod platform;
pub mod progress;
pub mod state;
pub mod strings;
