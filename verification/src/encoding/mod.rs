pub mod filters;
pub mod modes;
pub mod options;

pub use filters::{validate_crop_format, FilterBuilder, FilterChain};
pub use modes::{AbrEncoder, CbrEncoder, CrfEncoder, EncodingMode};
pub use options::EncodingOptions;
