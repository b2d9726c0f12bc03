//! Reconciles a working directory with a modpack manifest.
//!
//! The library decides; it never touches a disk or a network. A run is a
//! [`engine::SyncRun`]: a state machine that hands out one [`engine::Action`] at
//! a time and is told what came of it through an [`engine::Event`]. The caller
//! performs the actions against a local folder or a remote session.
pub mod archive;
pub mod client;
pub mod config;
pub mod document;
pub mod engine;
pub mod error;
pub mod ftp;
pub mod generate;
pub mod json;
pub mod laws;
pub mod local;
pub mod mrpack;
pub mod paths;
