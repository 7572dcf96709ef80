//! A download manager for model weights and other large files: it resolves what
//! a server says of a file, follows each download from pending to complete or
//! failed, samples its progress, and checks the finished file against a digest.
//! The network, the disk and the clock stay with the caller, which reports each
//! outcome and passes the resulting events on to an observer.

pub mod checksum;
pub mod download;
pub mod guarantees;
pub mod language;
pub mod manager;
pub mod media;
pub mod metadata;
pub mod models;
pub mod secret;
pub mod text;
