//! What analysis learns about a video: its resolution class and the
//! properties later steps read.

use vstd::prelude::*;
use crate::config::types::ContentType;

verus! {

/// Analysis results of a video (its running time, frame rate and
/// complexity score, which are floating point, are kept by the caller).
#[derive(Debug, Clone, PartialEq)]
pub struct VideoAnalysis {
    pub width: u32,
    pub height: u32,
    pub bitrate: Option<u32>,
    pub codec: Option<String>,
    pub is_hdr: bool,
    pub color_space: Option<String>,
    pub transfer_function: Option<String>,
    pub grain_level: u8,
    pub motion_level: u8,
    pub scene_changes: u32,
    pub content_type: Option<ContentType>,
    pub crop_values: Option<String>,
}

/// 3840 wide or 2160 high.
pub open spec fn is_4k_size(width: u32, height: u32) -> bool {
    width >= 3840 || height >= 2160
}

/// Below 4K but 1920 wide or 1080 high.
pub open spec fn is_1080p_size(width: u32, height: u32) -> bool {
    !is_4k_size(width, height) && (width >= 1920 || height >= 1080)
}

impl VideoAnalysis {
    /// A video of the given size, nothing else known.
    pub fn new(width: u32, height: u32) -> (r: Self)
        ensures
            r.width == width,
            r.height == height,
            r.bitrate is None,
            r.codec is None,
            !r.is_hdr,
            r.color_space is None,
            r.transfer_function is None,
            r.grain_level == 0,
            r.motion_level == 0,
            r.scene_changes == 0,
            r.content_type is None,
            r.crop_values is None,
    {
        VideoAnalysis {
            width,
            height,
            bitrate: None,
            codec: None,
            is_hdr: false,
            color_space: None,
            transfer_function: None,
            grain_level: 0,
            motion_level: 0,
            scene_changes: 0,
            content_type: None,
            crop_values: None,
        }
    }

    pub fn is_4k(&self) -> (r: bool)
        ensures
            r == is_4k_size(self.width, self.height),
    {
        self.width >= 3840 || self.height >= 2160
    }

    pub fn is_1080p(&self) -> (r: bool)
        ensures
            r == is_1080p_size(self.width, self.height),
    {
        !self.is_4k() && (self.width >= 1920 || self.height >= 1080)
    }

    /// `4k`, `1080p`, or `720p` for anything smaller.
    pub fn resolution_category(&self) -> (r: &'static str)
        ensures
            r@ == (if is_4k_size(self.width, self.height) {
                "4k"@
            } else if is_1080p_size(self.width, self.height) {
                "1080p"@
            } else {
                "720p"@
            }),
    {
        if self.is_4k() {
            "4k"
        } else if self.is_1080p() {
            "1080p"
        } else {
            "720p"
        }
    }

    pub fn pixel_count(&self) -> (r: u64)
        ensures
            r == self.width * self.height,
    {
        proof {
            vstd::arithmetic::mul::lemma_mul_upper_bound(
                self.width as int,
                u32::MAX as int,
                self.height as int,
                u32::MAX as int,
            );
        }
        self.width as u64 * self.height as u64
    }

    pub fn with_bitrate(self, bitrate: Option<u32>) -> (r: Self)
        ensures
            r == (VideoAnalysis { bitrate, ..self }),
    {
        VideoAnalysis { bitrate, ..self }
    }

    pub fn with_codec(self, codec: Option<String>) -> (r: Self)
        ensures
            r == (VideoAnalysis { codec, ..self }),
    {
        VideoAnalysis { codec, ..self }
    }

    pub fn with_hdr_info(
        self,
        is_hdr: bool,
        color_space: Option<String>,
        transfer_function: Option<String>,
    ) -> (r: Self)
        ensures
            r == (VideoAnalysis { is_hdr, color_space, transfer_function, ..self }),
    {
        VideoAnalysis { is_hdr, color_space, transfer_function, ..self }
    }

    pub fn with_grain_level(self, grain_level: u8) -> (r: Self)
        ensures
            r == (VideoAnalysis { grain_level, ..self }),
    {
        VideoAnalysis { grain_level, ..self }
    }

    pub fn with_motion_level(self, motion_level: u8) -> (r: Self)
        ensures
            r == (VideoAnalysis { motion_level, ..self }),
    {
        VideoAnalysis { motion_level, ..self }
    }

    pub fn with_scene_changes(self, scene_changes: u32) -> (r: Self)
        ensures
            r == (VideoAnalysis { scene_changes, ..self }),
    {
        VideoAnalysis { scene_changes, ..self }
    }

    pub fn with_content_type(self, content_type: Option<ContentType>) -> (r: Self)
        ensures
            r == (VideoAnalysis { content_type, ..self }),
    {
        VideoAnalysis { content_type, ..self }
    }

    pub fn with_crop_values(self, crop_values: Option<String>) -> (r: Self)
        ensures
            r == (VideoAnalysis { crop_values, ..self }),
    {
        VideoAnalysis { crop_values, ..self }
    }
}

impl Default for VideoAnalysis {
    fn default() -> (r: Self)
        ensures
            r.width == 1920 && r.height == 1080,
    {
        Self::new(1920, 1080)
    }
}

} // verus!
