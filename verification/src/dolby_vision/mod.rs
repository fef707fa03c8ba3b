pub mod rpu;
pub mod tools;

pub use rpu::{RpuManager, RpuMetadata};
pub use tools::DoviTool;
