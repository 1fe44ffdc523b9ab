//! A game launcher's download scheduler: a FIFO queue of requested transfers,
//! a bounded set of running ones, retry with exponential backoff, and progress
//! snapshots; with the launcher's data model and the small text and settings
//! helpers around it. The I/O (HTTP, files, timers) is left to the caller,
//! which reports each event back to `manager::DownloadManager`.

pub mod api_response;
pub mod config;
pub mod downloader;
pub mod files;
pub mod instances;
pub mod manager;
pub mod models;
pub mod network;
pub mod performance;
pub mod update;
mod ids;
mod text;
