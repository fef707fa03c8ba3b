pub mod complexity;
pub mod content;
pub mod crop;
pub mod dolby_vision;
pub mod video;
pub mod web_search;

pub use complexity::ComplexityAnalyzer;
pub use content::ContentAnalyzer;
pub use crop::CropValues;
pub use dolby_vision::{DolbyVisionDetector, DolbyVisionInfo, DolbyVisionProfile};
