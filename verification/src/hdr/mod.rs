pub mod detection;
pub mod encoding;
pub mod formats;
pub mod metadata;
pub mod types;

pub use detection::{HdrCharacteristics, HdrDetector, ProbeReport, ProbeStream, SideDataEntry};
pub use encoding::HdrEncodingParameterBuilder;
pub use formats::{Hdr10Handler, Hdr10PlusHandler, HlgHandler, MasteringDisplaySummary};
pub use metadata::HdrMetadataExtractor;
pub use types::{ColorSpace, ContentLightLevelInfo, EnhancedVideoMetadata, HdrFormat, TransferFunction};
