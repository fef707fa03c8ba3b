//! Content classification from technical measurements.

use vstd::prelude::*;
use crate::config::types::ContentType;
use crate::text::owned;

verus! {

/// A content type with how far it is trusted (in percent) and how it was
/// found.
#[derive(Debug, Clone, PartialEq)]
pub struct ContentClassification {
    pub content_type: ContentType,
    pub confidence_percent: u32,
    pub method: String,
}

/// Classifies content from technical measurements.
pub struct ContentAnalyzer;

/// The content type that the bitrate per pixel indicates: above 0.02
/// (kbps per pixel) heavy grain, above 0.015 light grain, film otherwise;
/// an unknown bitrate counts as zero.
pub open spec fn content_type_by_bitrate(width: u32, height: u32, bitrate: Option<u32>) -> ContentType {
    let b: int = match bitrate {
        Some(x) => x as int,
        None => 0,
    };
    let pixels: int = width as int * height as int;
    if 50 * b > pixels {
        ContentType::HeavyGrain
    } else if 200 * b > 3 * pixels {
        ContentType::LightGrain
    } else {
        ContentType::Film
    }
}

impl ContentAnalyzer {
    pub fn new() -> (r: Self) {
        ContentAnalyzer
    }

    /// Classifies by bitrate per pixel (the ratio compared exactly), with
    /// a confidence of 70%.
    pub fn classify_content(&self, width: u32, height: u32, bitrate: Option<u32>) -> (r: ContentClassification)
        ensures
            r.content_type == content_type_by_bitrate(width, height, bitrate),
            r.confidence_percent == 70,
            r.method@ == "technical_analysis"@,
    {
        let b: u128 = match bitrate {
            Some(x) => x as u128,
            None => 0,
        };
        proof {
            vstd::arithmetic::mul::lemma_mul_upper_bound(
                width as int,
                u32::MAX as int,
                height as int,
                u32::MAX as int,
            );
        }
        let pixels: u128 = width as u128 * height as u128;
        let content_type = if 50 * b > pixels {
            ContentType::HeavyGrain
        } else if 200 * b > 3 * pixels {
            ContentType::LightGrain
        } else {
            ContentType::Film
        };
        ContentClassification {
            content_type,
            confidence_percent: 70,
            method: owned("technical_analysis"),
        }
    }
}

impl Default for ContentAnalyzer {
    fn default() -> (r: Self) {
        Self::new()
    }
}

} // verus!
