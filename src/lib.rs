//! Sticker download pipeline: command tokens, progress reporting, job
//! deduplication with bounded fetching, format conversion and packaging.

pub mod convert;
pub mod download;
pub mod error;
pub mod pipeline;
pub mod progress;
pub mod query_command;
pub mod sticker_set_info;
pub mod stuff;
