//! A local media catalog: ingestion of remote media through an external
//! acquisition tool, and a deduplicated, ordered store of the acquired tracks.

pub mod db;
pub mod error;
pub mod json;
pub mod models;
pub mod naming;
pub mod pipeline;
pub mod text;
pub mod ytdlp;
