//! Verified core of an FFmpeg/x265 encoding front end: configuration
//! profiles, HDR / Dolby Vision metadata decisions, x265 parameter
//! assembly, stream selection and filter chains.

pub mod analysis;
pub mod cli;
pub mod color;
pub mod config;
pub mod content_manager;
pub mod dolby_vision;
pub mod encoding;
pub mod hardware;
pub mod error;
pub mod hdr;
pub mod hdr10plus;
pub mod metadata_workflow;
pub mod mkvmerge;
pub mod params;
pub mod pattern;
pub mod paths;
pub mod preview;
pub mod processing;
pub mod progress;
pub mod stream;
pub mod text;
pub mod utils;

pub use error::{Error, Result};
pub use hdr::{ColorSpace, HdrFormat, TransferFunction};
