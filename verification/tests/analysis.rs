use ffmpeg_autoencoder::analysis::complexity::ComplexityAnalyzer;
use ffmpeg_autoencoder::analysis::crop::{
    crops_match_with_tolerance, extract_crop_from_output, most_common_crop, CropValues,
};
use ffmpeg_autoencoder::analysis::dolby_vision::{DolbyVisionInfo, DolbyVisionProfile};

#[test]
fn test_complexity_analyzer_creation() {
    let _analyzer = ComplexityAnalyzer::default();
}

#[test]
fn test_crop_values_creation() {
    let crop = CropValues::new(1920, 800, 0, 140);
    assert_eq!(crop.to_ffmpeg_string(), "1920:800:0:140");
}

#[test]
fn test_crop_regex() {
    let output = "[Parsed_cropdetect_0 @ 0x7f8b8c000940] crop=1920:800:0:140";
    let crop = extract_crop_from_output(output).unwrap();

    assert_eq!(crop.width, 1920);
    assert_eq!(crop.height, 800);
    assert_eq!(crop.x, 0);
    assert_eq!(crop.y, 140);
}

#[test]
fn test_crops_match_tolerance() {
    let crop1 = CropValues::new(1920, 800, 0, 140);
    let crop2 = CropValues::new(1918, 802, 2, 138);
    let crop3 = CropValues::new(1900, 780, 10, 150);

    assert!(crops_match_with_tolerance(&crop1, &crop2, 4));
    assert!(!crops_match_with_tolerance(&crop1, &crop3, 4));
}

#[test]
fn crop_output_takes_last_report() {
    let output = "crop=1920:1080:0:0\nnoise\n[x] crop=1920:800:0:140\n";
    assert_eq!(extract_crop_from_output(output), Some(CropValues::new(1920, 800, 0, 140)));
    assert_eq!(extract_crop_from_output("no crop here"), None);
}

#[test]
fn crop_output_with_overflowing_number_gives_none() {
    let output = "crop=99999999999:800:0:140\ncrop=1920:800:0:140";
    assert_eq!(extract_crop_from_output(output), None);
}

#[test]
fn most_common_crop_counts_samples() {
    let a = CropValues::new(1920, 800, 0, 140);
    let b = CropValues::new(1920, 816, 0, 132);
    let samples = vec![Some(a), None, Some(b), Some(a)];
    assert_eq!(most_common_crop(&samples), Some((a, 2, 3)));
    assert_eq!(most_common_crop(&vec![None, None]), None);
}

#[test]
fn scene_changes_are_counted() {
    let analyzer = ComplexityAnalyzer::new();
    let out = "[Parsed_showinfo_1] n:0\n[Parsed_showinfo_1] n:1\nother\n";
    assert_eq!(analyzer.count_scene_changes(out), 2);
    assert_eq!(analyzer.count_scene_changes(""), 0);
}

#[test]
fn test_dolby_vision_profile_conversion() {
    assert_eq!(DolbyVisionProfile::from_string("dvhe.05"), Some(DolbyVisionProfile::Profile5));
    assert_eq!(DolbyVisionProfile::from_string("dvhe.07"), Some(DolbyVisionProfile::Profile7));
    assert_eq!(DolbyVisionProfile::from_string("dvhe.08.06"), Some(DolbyVisionProfile::Profile81));
    assert_eq!(DolbyVisionProfile::from_string("8.1"), Some(DolbyVisionProfile::Profile81));
    assert_eq!(DolbyVisionProfile::from_string("unknown"), None);
}

#[test]
fn test_dolby_vision_info_defaults() {
    let info = DolbyVisionInfo::none();
    assert_eq!(info.profile, DolbyVisionProfile::NotDolbyVision);
    assert!(!info.is_dolby_vision());
    assert!(!info.needs_rpu_processing());
}

#[test]
fn test_profile_capabilities() {
    assert!(DolbyVisionProfile::Profile81.supports_hdr10_compatibility());
    assert!(DolbyVisionProfile::Profile7.is_dual_layer());
    assert!(!DolbyVisionProfile::Profile81.is_dual_layer());
}

#[test]
fn test_dolby_vision_profile_detection() {
    assert_eq!(DolbyVisionProfile::from_string("dvhe.05"), Some(DolbyVisionProfile::Profile5));
    assert_eq!(DolbyVisionProfile::from_string("dvhe.07"), Some(DolbyVisionProfile::Profile7));
    assert_eq!(DolbyVisionProfile::from_string("dvhe.08.06"), Some(DolbyVisionProfile::Profile81));
    assert_eq!(DolbyVisionProfile::from_string("8.1"), Some(DolbyVisionProfile::Profile81));
}

use ffmpeg_autoencoder::analysis::video::VideoAnalysis;
use ffmpeg_autoencoder::config::types::ContentType;

#[test]
fn test_video_analysis_resolution_detection() {
    let analysis_4k = VideoAnalysis::new(3840, 2160);
    assert!(analysis_4k.is_4k());
    assert!(!analysis_4k.is_1080p());
    assert_eq!(analysis_4k.resolution_category(), "4k");

    let analysis_1080p = VideoAnalysis::new(1920, 1080);
    assert!(!analysis_1080p.is_4k());
    assert!(analysis_1080p.is_1080p());
    assert_eq!(analysis_1080p.resolution_category(), "1080p");

    let analysis_720p = VideoAnalysis::new(1280, 720);
    assert!(!analysis_720p.is_4k());
    assert!(!analysis_720p.is_1080p());
    assert_eq!(analysis_720p.resolution_category(), "720p");
}

#[test]
fn test_video_analysis_calculations() {
    let analysis = VideoAnalysis::new(1920, 1080);
    assert_eq!(analysis.pixel_count(), 2_073_600);
    assert_eq!(VideoAnalysis::new(u32::MAX, u32::MAX).pixel_count(), (u32::MAX as u64) * (u32::MAX as u64));
}

#[test]
fn test_video_analysis_builder() {
    let analysis = VideoAnalysis::new(1920, 1080)
        .with_bitrate(Some(5000))
        .with_codec(Some("h264".to_string()))
        .with_hdr_info(true, Some("bt2020".to_string()), Some("smpte2084".to_string()))
        .with_grain_level(45)
        .with_motion_level(25)
        .with_scene_changes(150)
        .with_content_type(Some(ContentType::Film))
        .with_crop_values(Some("1920:800:0:140".to_string()));

    assert_eq!(analysis.bitrate, Some(5000));
    assert_eq!(analysis.codec, Some("h264".to_string()));
    assert!(analysis.is_hdr);
    assert_eq!(analysis.color_space, Some("bt2020".to_string()));
    assert_eq!(analysis.transfer_function, Some("smpte2084".to_string()));
    assert_eq!(analysis.grain_level, 45);
    assert_eq!(analysis.motion_level, 25);
    assert_eq!(analysis.scene_changes, 150);
    assert_eq!(analysis.content_type, Some(ContentType::Film));
    assert_eq!(analysis.crop_values, Some("1920:800:0:140".to_string()));
}

use ffmpeg_autoencoder::analysis::content::ContentAnalyzer;

#[test]
fn content_classified_by_bitrate_per_pixel() {
    let analyzer = ContentAnalyzer::new();
    let c = analyzer.classify_content(1920, 1080, Some(41473));
    assert_eq!(c.content_type, ContentType::HeavyGrain);
    assert_eq!(c.confidence_percent, 70);
    assert_eq!(c.method, "technical_analysis");
    assert_eq!(analyzer.classify_content(1920, 1080, Some(41472)).content_type, ContentType::LightGrain);
    assert_eq!(analyzer.classify_content(1920, 1080, Some(30000)).content_type, ContentType::Film);
    assert_eq!(analyzer.classify_content(1920, 1080, None).content_type, ContentType::Film);
    assert_eq!(analyzer.classify_content(0, 0, Some(1)).content_type, ContentType::HeavyGrain);
}
