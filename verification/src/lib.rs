//! Decisions of a daily picture fetcher: how a download is named, which files
//! are rotated into the archive, and in which order the steps of a cycle run.
//!
//! Nothing here touches the network or the file system. Each machine in this
//! crate names the next step to perform and is told how that step ended.

pub mod text;
pub mod date;
pub mod extension;
pub mod resolver;
pub mod rotation;
pub mod download;
pub mod cycle;
