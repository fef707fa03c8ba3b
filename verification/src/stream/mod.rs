pub mod preservation;
pub mod probe;

pub use preservation::{
    ChapterInfo, StreamDisposition, StreamInfo, StreamMapping, StreamPreservation,
    StreamSelectionConfig,
};
