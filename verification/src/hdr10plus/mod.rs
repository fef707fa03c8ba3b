pub mod manager;
pub mod metadata;

pub use manager::{Hdr10PlusManager, Hdr10PlusTool};
pub use metadata::{
    BezierCurveData, Hdr10PlusMetadata, Hdr10PlusProcessingResult, JsonInfo,
    LuminanceDistributions, LuminanceParameters, SceneMetadata, ToolInfo,
};
