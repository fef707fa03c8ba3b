pub mod preview_profiles;
pub mod loader;
pub mod profiles;
pub mod stream_profiles;
pub mod types;

pub use preview_profiles::PreviewProfileManager;
pub use profiles::{EncodingProfile, ProfileManager, RawParamValue, RawProfile};
pub use stream_profiles::StreamSelectionProfileManager;
pub use types::{
    AppConfig, AudioSelectionConfig, ContentType, DeinterlaceConfig, DenoiseConfig,
    DoviToolConfig, FiltersConfig, LoggingConfig, NnediSettings, PreviewProfile,
    RawPreviewProfile, RawStreamSelectionProfile, StreamSelectionProfile,
    SubtitleSelectionConfig, ToneMappingConfig, ToolConfig, ToolsConfig,
};
