//! Query-and-export adapter for filesystem metadata.
//!
//! A path is classified as a directory or a media file, the engine's raw
//! record is normalized into a presentation-ready record, and that record
//! can be serialized into a canonical JSON document.

pub mod meta;
pub mod json;
pub mod normalize;
pub mod pipeline;
