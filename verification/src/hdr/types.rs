//! HDR formats, colour spaces, transfer functions and light-level metadata.

use vstd::prelude::*;

verus! {

/// HDR signalling of a video stream.
#[derive(Debug, Clone, Copy, PartialEq, Eq, Hash, Structural)]
pub enum HdrFormat {
    Sdr,
    HDR10,
    HDR10Plus,
    HLG,
}

/// Colour spaces (gamuts) the encoder knows.
#[derive(Debug, Clone, Copy, PartialEq, Eq, Structural)]
pub enum ColorSpace {
    Bt709,
    Bt2020,
    DciP3,
    DisplayP3,
}

/// Transfer functions (EOTFs) the encoder knows.
#[derive(Debug, Clone, Copy, PartialEq, Eq, Structural)]
pub enum TransferFunction {
    Bt709,
    Smpte2084,
    AribStdB67,
    Bt2020_10,
    Bt2020_12,
}

/// Content light level information (nits).
#[derive(Debug, Clone, PartialEq, Eq, Structural)]
pub struct ContentLightLevelInfo {
    pub max_cll: u32,
    pub max_fall: u32,
}

/// Colour and HDR side information of a video stream as read from ffprobe.
#[derive(Debug, Clone, PartialEq, Eq)]
pub struct EnhancedVideoMetadata {
    pub color_space: Option<String>,
    pub transfer_function: Option<String>,
    pub color_primaries: Option<String>,
    pub master_display_metadata: Option<String>,
    pub content_light_level: Option<String>,
    pub has_dynamic_metadata: bool,
    pub bit_depth: Option<u8>,
    pub chroma_subsampling: Option<String>,
}

} // verus!
