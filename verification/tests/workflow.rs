use ffmpeg_autoencoder::analysis::dolby_vision::{DolbyVisionDetector, DolbyVisionInfo, DolbyVisionProfile};
use ffmpeg_autoencoder::config::profiles::{EncodingProfile, RawParamValue, RawProfile};
use ffmpeg_autoencoder::content_manager::{
    determine_encoding_approach, get_vbv_settings, hdr10plus_step, vbv_requirements, ApproachKind,
    Hdr10PlusStep,
};
use ffmpeg_autoencoder::encoding::modes::EncodingMode;
use ffmpeg_autoencoder::error::Error;
use ffmpeg_autoencoder::hdr::HdrFormat;
use ffmpeg_autoencoder::mkvmerge::{MkvMergeConfig, MkvMergeTool};
use ffmpeg_autoencoder::preview::{
    check_preview_step, check_previews, image_encode_args, image_extract_args, preview_file_path,
    preview_output_dir, segment_args, PreviewResult, PreviewStep,
};
use ffmpeg_autoencoder::progress::{format_duration, is_two_pass, parse_progress_file, progress_file_path};

fn detector() -> DolbyVisionDetector {
    DolbyVisionDetector::new(true, true, "8.1".to_string(), true)
}

fn dv(profile: DolbyVisionProfile) -> DolbyVisionInfo {
    let mut info = DolbyVisionInfo::none();
    info.profile = profile;
    info.has_rpu = true;
    info
}

#[test]
fn test_sdr_content_adjustments() {
    let dv_info = DolbyVisionInfo::none();
    let approach = determine_encoding_approach(None, &dv_info, HdrFormat::Sdr, false);
    assert_eq!(approach, ApproachKind::Sdr);
    assert_eq!(vbv_requirements(approach, None), None);
}

#[test]
fn test_vbv_constraints_for_dolby_vision() {
    let d = detector();
    let dv_info = dv(DolbyVisionProfile::Profile81);
    let approach = determine_encoding_approach(Some(&d), &dv_info, HdrFormat::HDR10, false);
    assert_eq!(approach, ApproachKind::DolbyVision);
    let vbv = vbv_requirements(approach, Some((160000, 160000)));
    assert_eq!(vbv, Some((160000, 160000)));
    assert_eq!(get_vbv_settings(true, Some(160000), Some(160000)), Some((160000, 160000)));
}

#[test]
fn approach_priorities() {
    let d = detector();
    let p81 = dv(DolbyVisionProfile::Profile81);
    assert_eq!(
        determine_encoding_approach(Some(&d), &p81, HdrFormat::HDR10Plus, false),
        ApproachKind::DolbyVisionWithHdr10Plus
    );
    assert_eq!(
        determine_encoding_approach(Some(&d), &p81, HdrFormat::HDR10, true),
        ApproachKind::DolbyVisionWithHdr10Plus
    );
    assert_eq!(determine_encoding_approach(None, &p81, HdrFormat::HDR10, false), ApproachKind::Hdr);
    assert_eq!(determine_encoding_approach(None, &p81, HdrFormat::Sdr, false), ApproachKind::Sdr);
    assert_eq!(
        determine_encoding_approach(Some(&d), &DolbyVisionInfo::none(), HdrFormat::HLG, false),
        ApproachKind::Hdr
    );
    assert_eq!(vbv_requirements(ApproachKind::DolbyVisionWithHdr10Plus, None), Some((160000, 160000)));
    assert_eq!(vbv_requirements(ApproachKind::Hdr, Some((1, 2))), None);
    assert_eq!(get_vbv_settings(true, None, Some(5)), Some((160000, 5)));
    assert_eq!(get_vbv_settings(false, Some(1), Some(5)), None);
}

#[test]
fn hdr10plus_processing_choice() {
    let none = DolbyVisionInfo::none();
    let p81 = dv(DolbyVisionProfile::Profile81);
    assert_eq!(hdr10plus_step(false, HdrFormat::HDR10Plus, &none), Hdr10PlusStep::Skip);
    assert_eq!(hdr10plus_step(true, HdrFormat::HDR10Plus, &none), Hdr10PlusStep::ExtractOnly);
    assert_eq!(hdr10plus_step(true, HdrFormat::HDR10, &none), Hdr10PlusStep::ExtractOnly);
    assert_eq!(hdr10plus_step(true, HdrFormat::HLG, &none), Hdr10PlusStep::Skip);
    assert_eq!(hdr10plus_step(true, HdrFormat::Sdr, &p81), Hdr10PlusStep::DualFormat);
}

#[test]
fn progress_report_parsing() {
    let report = "frame=10\nfps=24.5\nout_time_us=bogus\nprogress=continue\nframe=120\nfps=25.0\nout_time_us=5000000\ntotal_size=1048576\nspeed=1.25x\nprogress=continue\n";
    let p = parse_progress_file(report).unwrap();
    assert_eq!(p.frame, Some(120));
    assert_eq!(p.fps.as_deref(), Some("25.0"));
    assert_eq!(p.out_time_us, Some(5000000));
    assert_eq!(p.total_size, Some(1048576));
    assert_eq!(p.speed.as_deref(), Some("1.25"));

    assert!(parse_progress_file("progress=continue\nout_time_us=0\n").is_none());
    assert!(parse_progress_file("").is_none());
    let only_time = parse_progress_file("  out_time_us = 42 \r\n").unwrap();
    assert_eq!(only_time.out_time_us, Some(42));
    assert_eq!(only_time.frame, None);
    let bad_frame = parse_progress_file("frame=1\nframe=x\nout_time_us=7").unwrap();
    assert_eq!(bad_frame.frame, None);
}

#[test]
fn progress_reads_only_the_last_twenty_lines() {
    let mut report = String::from("frame=99\n");
    for _ in 0..20 {
        report.push_str("progress=continue\n");
    }
    assert!(parse_progress_file(&report).is_none());
}

#[test]
fn progress_helpers() {
    assert_eq!(format_duration(59), "0:59");
    assert_eq!(format_duration(61), "1:01");
    assert_eq!(format_duration(3600), "1:00:00");
    assert_eq!(format_duration(3 * 3600 + 5 * 60 + 9), "3:05:09");
    assert!(is_two_pass(EncodingMode::ABR));
    assert!(is_two_pass(EncodingMode::CBR));
    assert!(!is_two_pass(EncodingMode::CRF));
    assert_eq!(progress_file_path(4321), "/tmp/ffmpeg_progress_4321.txt");
}

fn preview_profile() -> EncodingProfile {
    let raw = RawProfile {
        title: "T".to_string(),
        base_bitrate: 5000,
        hdr_bitrate: 6000,
        content_type: "film".to_string(),
        x265_params: vec![
            ("preset".to_string(), RawParamValue::Text("slow".to_string())),
            ("aq-mode".to_string(), RawParamValue::Number("3".to_string())),
        ],
    };
    EncodingProfile::from_raw("movie".to_string(), raw).unwrap()
}

#[test]
fn preview_paths_and_commands() {
    assert_eq!(preview_output_dir(Some("/out"), "/videos/a.mkv"), "/out");
    assert_eq!(preview_output_dir(None, "/videos/a.mkv"), "/videos");
    let path = preview_file_path("/out", "movie", "30s", "id", true);
    assert_eq!(path, "/out/id_preview_movie_30s.png");
    let path = preview_file_path("/out", "movie", "10-20s", "id", false);
    assert_eq!(path, "/out/id_preview_movie_10-20s.mkv");

    let p = preview_profile();
    let enc = image_encode_args("30", "/videos/a.mkv", &p, "22", "/out/a.png");
    assert_eq!(
        enc,
        vec![
            "-ss", "30", "-i", "/videos/a.mkv", "-vframes", "1", "-c:v", "libx265",
            "-x265-params", "preset=slow:aq-mode=3", "-crf", "22", "-preset", "slow", "-an", "-y",
            "/out/a.temp.mkv",
        ]
    );
    assert_eq!(
        image_extract_args("/out/a.png"),
        vec!["-i", "/out/a.temp.mkv", "-vframes", "1", "-c:v", "png", "-y", "/out/a.png"]
    );
    let seg = segment_args("10", "20", "in.mkv", &p, "22", "out.mkv");
    assert_eq!(seg[13], "slow");
    assert_eq!(seg[15], "copy");
    assert_eq!(seg.last().unwrap(), "out.mkv");
}

#[test]
fn preview_outcomes() {
    assert!(check_preview_step(PreviewStep::EncodeFrame, true, "").is_ok());
    assert_eq!(
        check_preview_step(PreviewStep::ExtractPng, false, "boom").err(),
        Some(Error::Ffmpeg { message: "FFmpeg failed to extract PNG: boom".to_string() })
    );
    assert_eq!(
        check_previews(&vec![]).err(),
        Some(Error::Encoding { message: "No previews were successfully generated".to_string() })
    );
    let one = PreviewResult {
        profile_name: "movie".to_string(),
        output_path: "/out/a.png".to_string(),
        file_size: 10,
        encoding_duration: std::time::Duration::from_secs(1),
    };
    assert!(check_previews(&vec![one]).is_ok());
}

#[test]
fn mkvmerge_remux_command() {
    let tool = MkvMergeTool::new(MkvMergeConfig { path: "mkvmerge".to_string(), timeout_seconds: 60 });
    assert_eq!(tool.path, "mkvmerge");
    assert_eq!(MkvMergeTool::version_args(), vec!["--version"]);
    assert_eq!(
        MkvMergeTool::remux_args("v.hevc", "src.mkv", "out.mkv", "23.976"),
        vec![
            "-o", "out.mkv", "--default-duration", "0:23.976fps", "--no-audio",
            "--no-subtitles", "--no-chapters", "v.hevc", "-D", "src.mkv",
        ]
    );
}

use ffmpeg_autoencoder::config::types::{AudioSelectionConfig, ToolConfig};
use ffmpeg_autoencoder::dolby_vision::RpuManager;
use ffmpeg_autoencoder::hdr10plus::Hdr10PlusManager;
use ffmpeg_autoencoder::metadata_workflow::{
    post_encoding_action, ExtractedMetadata, MetadataWorkflowManager, PostEncodingAction,
    ToolAvailability,
};
use ffmpeg_autoencoder::stream::preservation::{StreamDisposition, StreamInfo, StreamPreservation};
use ffmpeg_autoencoder::utils::FfmpegWrapper;

fn uuid_like(s: &str) -> bool {
    s.len() == 36 && [8, 13, 18, 23].iter().all(|&i| s.as_bytes()[i] == b'-')
}

#[test]
fn sidecar_file_names() {
    let rpu = RpuManager::rpu_file_path("/v/film.mkv");
    assert!(rpu.starts_with("/v/film_rpu_") && rpu.ends_with(".bin"));
    assert!(uuid_like(&rpu["/v/film_rpu_".len()..rpu.len() - 4]));
    let hevc = RpuManager::temp_hevc_path("/v/enc.mkv", false);
    assert!(hevc.starts_with("/v/temp_hevc_") && hevc.ends_with(".hevc"));
    let hevc_rpu = RpuManager::temp_hevc_path("/v/enc.mkv", true);
    assert!(hevc_rpu.starts_with("/v/temp_hevc_rpu_"));
    let json = Hdr10PlusManager::metadata_file_path("/v/film.mkv");
    assert!(json.starts_with("/v/film_hdr10plus_metadata_") && json.ends_with(".json"));
}

#[test]
fn intermediate_output_and_post_actions() {
    let workflow = MetadataWorkflowManager::new(
        "/tmp".to_string(),
        true,
        false,
        Some(ToolConfig::default()),
        None,
        ToolAvailability { dovi_tool: true, hdr10plus_tool: false },
    );
    assert_eq!(workflow.get_temp_output_path("/out/final.mkv"), "/out/temp_encode_final.mkv");
    assert_eq!(workflow.get_temp_output_path("final.mkv"), "temp_encode_final.mkv");
    assert!(!workflow.needs_post_processing(&ExtractedMetadata::none("/tmp".to_string())));
    assert_eq!(post_encoding_action(true, true, true), PostEncodingAction::InjectMetadata);
    assert_eq!(post_encoding_action(false, true, true), PostEncodingAction::RemoveIntermediate);
    assert_eq!(post_encoding_action(false, true, false), PostEncodingAction::Nothing);
    assert_eq!(post_encoding_action(true, false, true), PostEncodingAction::Nothing);
}

#[test]
fn audio_title_patterns_use_regular_expressions() {
    let preservation =
        StreamPreservation::new(FfmpegWrapper::new("ffmpeg".to_string(), "ffprobe".to_string()));
    let audio = |index: u32, title: &str| StreamInfo {
        index,
        codec_type: "audio".to_string(),
        codec_name: "aac".to_string(),
        language: Some("eng".to_string()),
        title: Some(title.to_string()),
        disposition: StreamDisposition::none(),
    };
    let streams = vec![audio(1, "Main 5.1"), audio(2, "Stereo"), audio(3, "Main 7.1")];
    let config = AudioSelectionConfig {
        title_patterns: Some(vec![r"^Main \d\.1$".to_string()]),
        ..Default::default()
    };
    let kept = preservation.filter_audio_streams(streams, &config).unwrap();
    assert_eq!(kept.iter().map(|s| s.index).collect::<Vec<_>>(), vec![1, 3]);
}

use ffmpeg_autoencoder::color::transfers::TransferFunctionUtils;
use ffmpeg_autoencoder::hdr::TransferFunction;

#[test]
fn bit_depth_check_for_encoding() {
    assert!(TransferFunctionUtils::validate_for_encoding(TransferFunction::Smpte2084, 10).is_ok());
    assert_eq!(
        TransferFunctionUtils::validate_for_encoding(TransferFunction::Smpte2084, 8),
        Err("Bit depth 8 insufficient for Smpte2084, minimum required: 10".to_string())
    );
    assert!(TransferFunctionUtils::validate_for_encoding(TransferFunction::Bt709, 8).is_ok());
}

#[test]
fn extraction_follows_the_approach() {
    let workflow = MetadataWorkflowManager::new(
        "/tmp".to_string(),
        true,
        true,
        Some(ToolConfig::default()),
        Some(ToolConfig::default()),
        ToolAvailability { dovi_tool: true, hdr10plus_tool: true },
    );
    let mut dv = DolbyVisionInfo::none();
    dv.profile = DolbyVisionProfile::Profile81;
    dv.rpu_present = true;
    let p = workflow.extraction_plan(ApproachKind::DolbyVisionWithHdr10Plus, HdrFormat::HDR10, &dv);
    assert!(p.dolby_vision && p.hdr10_plus);
    let p = workflow.extraction_plan(ApproachKind::DolbyVision, HdrFormat::HDR10, &dv);
    assert!(p.dolby_vision && !p.hdr10_plus);
    let p = workflow.extraction_plan(ApproachKind::Hdr, HdrFormat::HDR10Plus, &dv);
    assert!(!p.dolby_vision && p.hdr10_plus);
    let p = workflow.extraction_plan(ApproachKind::Hdr, HdrFormat::HDR10, &dv);
    assert!(!p.dolby_vision && !p.hdr10_plus);
    dv.rpu_present = false;
    let p = workflow.extraction_plan(ApproachKind::DolbyVision, HdrFormat::HDR10, &dv);
    assert!(!p.dolby_vision);
}
