use ffmpeg_autoencoder::analysis::dolby_vision::DolbyVisionProfile;
use ffmpeg_autoencoder::dolby_vision::rpu::RpuMetadata;

#[test]
fn test_rpu_metadata_creation() {
    let temp_path = "/tmp/test.rpu".to_string();
    let metadata = RpuMetadata::new(temp_path.clone(), DolbyVisionProfile::Profile81);

    assert_eq!(metadata.temp_file, temp_path);
    assert_eq!(metadata.profile, DolbyVisionProfile::Profile81);
    assert!(!metadata.extracted_successfully);
    assert_eq!(metadata.frame_count, None);
}

use ffmpeg_autoencoder::analysis::dolby_vision::{DolbyVisionDetector, DolbyVisionInfo};
use ffmpeg_autoencoder::config::types::{DoviToolConfig, ToolConfig};
use ffmpeg_autoencoder::dolby_vision::rpu::RpuManager;
use ffmpeg_autoencoder::dolby_vision::tools::DoviTool;

fn default_detector(target: &str, enabled: bool) -> DolbyVisionDetector {
    DolbyVisionDetector::new(enabled, true, target.to_string(), true)
}

fn dv(profile: DolbyVisionProfile) -> DolbyVisionInfo {
    let mut info = DolbyVisionInfo::none();
    info.profile = profile;
    info.has_rpu = true;
    info
}

#[test]
fn test_dolby_vision_detector_creation() {
    let detector = default_detector("8.1", true);
    let dv_info = dv(DolbyVisionProfile::Profile7);

    assert!(detector.should_preserve_dolby_vision(&dv_info));
    assert_eq!(
        detector.get_target_profile(DolbyVisionProfile::Profile7),
        DolbyVisionProfile::Profile81
    );
}

#[test]
fn test_dovi_tool_configuration() {
    let config = DoviToolConfig::default();
    assert_eq!(config.path, "dovi_tool");
    assert_eq!(config.timeout_seconds, 300);

    let custom_config = ToolConfig {
        path: "/usr/local/bin/dovi_tool".to_string(),
        timeout_seconds: 600,
        extract_args: Some(vec!["--verbose".to_string()]),
        inject_args: Some(vec!["--force".to_string()]),
    };

    let tool = DoviTool::new(custom_config.clone());
    assert_eq!(tool.config, custom_config);
    drop(tool);
}

#[test]
fn test_dolby_vision_profile_conversion_logic() {
    let detector = default_detector("8.2", true);
    assert_eq!(
        detector.get_target_profile(DolbyVisionProfile::Profile7),
        DolbyVisionProfile::Profile82
    );
    assert_eq!(
        detector.get_target_profile(DolbyVisionProfile::Profile81),
        DolbyVisionProfile::Profile81
    );
}

#[test]
fn test_dolby_vision_fallback_scenarios() {
    let detector = default_detector("8.1", false);
    let dv_info = dv(DolbyVisionProfile::Profile7);
    assert!(!detector.should_preserve_dolby_vision(&dv_info));
    let manager = RpuManager::new("/tmp".to_string(), None);
    assert!(manager.dovi_tool.is_none());
}

#[test]
fn profile_seven_kept_only_when_configured() {
    let keep = DolbyVisionDetector::new(true, true, "8.1".to_string(), false);
    let drop7 = DolbyVisionDetector::new(true, false, "8.1".to_string(), false);
    assert!(keep.should_preserve_dolby_vision(&dv(DolbyVisionProfile::Profile7)));
    assert!(!drop7.should_preserve_dolby_vision(&dv(DolbyVisionProfile::Profile7)));
    assert!(drop7.should_preserve_dolby_vision(&dv(DolbyVisionProfile::Profile81)));
    assert!(!keep.should_preserve_dolby_vision(&DolbyVisionInfo::none()));
    assert_eq!(keep.get_target_profile(DolbyVisionProfile::Profile7), DolbyVisionProfile::Profile7);
    let to84 = DolbyVisionDetector::new(true, true, "8.4".to_string(), true);
    assert_eq!(to84.get_target_profile(DolbyVisionProfile::Profile7), DolbyVisionProfile::Profile84);
}

use ffmpeg_autoencoder::dolby_vision::rpu::InjectionStage;
use ffmpeg_autoencoder::error::Error;

#[test]
fn injection_steps_clean_up_and_report() {
    let s = RpuManager::injection_step(InjectionStage::ExtractHevc, true, "", "a.hevc", "b.hevc");
    assert!(s.remove.is_empty());
    assert_eq!(s.next, Some(InjectionStage::InjectRpu));
    assert!(s.outcome.is_none());

    let s = RpuManager::injection_step(InjectionStage::ExtractHevc, false, "bad", "a.hevc", "b.hevc");
    assert_eq!(s.remove, vec!["a.hevc"]);
    assert_eq!(s.next, None);
    assert_eq!(
        s.outcome,
        Some(Err(Error::Ffmpeg { message: "Failed to extract HEVC from MKV: bad".to_string() }))
    );

    let s = RpuManager::injection_step(InjectionStage::InjectRpu, true, "", "a.hevc", "b.hevc");
    assert_eq!(s.remove, vec!["a.hevc"]);
    assert_eq!(s.next, Some(InjectionStage::Remux));

    let s = RpuManager::injection_step(InjectionStage::InjectRpu, false, "x", "a.hevc", "b.hevc");
    assert_eq!(s.remove, vec!["a.hevc", "b.hevc"]);
    assert_eq!(
        s.outcome,
        Some(Err(Error::DolbyVision("dovi_tool inject-rpu failed: x".to_string())))
    );

    let s = RpuManager::injection_step(InjectionStage::Remux, true, "", "a.hevc", "b.hevc");
    assert_eq!(s.remove, vec!["b.hevc"]);
    assert_eq!(s.outcome, Some(Ok(())));

    let s = RpuManager::injection_step(InjectionStage::Remux, false, "y", "a.hevc", "b.hevc");
    assert_eq!(
        s.outcome,
        Some(Err(Error::Ffmpeg { message: "Failed to remux HEVC+RPU into MKV: y".to_string() }))
    );
}

#[test]
fn injection_checks_before_running() {
    let manager = RpuManager::new("/tmp".to_string(), None);
    let mut rpu = RpuMetadata::new("/tmp/x.rpu".to_string(), DolbyVisionProfile::Profile81);
    assert_eq!(
        manager.check_injection(&rpu, true).err(),
        Some(Error::DolbyVision("dovi_tool not configured but required for RPU injection".to_string()))
    );
    let with_tool = RpuManager::new("/tmp".to_string(), Some(DoviTool::new(DoviToolConfig::default())));
    assert!(with_tool.check_injection(&rpu, true).is_err());
    rpu.extracted_successfully = true;
    assert_eq!(
        with_tool.check_injection(&rpu, false).err(),
        Some(Error::DolbyVision("RPU file not found: /tmp/x.rpu".to_string()))
    );
    assert!(with_tool.check_injection(&rpu, true).is_ok());
}
