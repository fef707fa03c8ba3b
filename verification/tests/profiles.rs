use ffmpeg_autoencoder::analysis::dolby_vision::{DolbyVisionInfo, DolbyVisionProfile};
use ffmpeg_autoencoder::config::loader::{require_profiles, validate_raw_profile};
use ffmpeg_autoencoder::config::profiles::{EncodingProfile, ProfileManager, RawParamValue, RawProfile};
use ffmpeg_autoencoder::config::types::ContentType;
use ffmpeg_autoencoder::dolby_vision::rpu::RpuMetadata;
use ffmpeg_autoencoder::encoding::modes::EncodingMode;
use ffmpeg_autoencoder::error::Error;
use ffmpeg_autoencoder::processing::{
    batch_outcome, check_profile_choice, encoding_mode_for, encoding_outcome, require_inputs,
    select_profile,
};

fn create_test_raw_profile() -> RawProfile {
    RawProfile {
        title: "Test Profile".to_string(),
        base_bitrate: 10000,
        hdr_bitrate: 13000,
        content_type: "film".to_string(),
        x265_params: vec![
            ("preset".to_string(), RawParamValue::Text("slow".to_string())),
            ("crf".to_string(), RawParamValue::Number("22".to_string())),
            ("weightb".to_string(), RawParamValue::Bool(true)),
            ("no-sao".to_string(), RawParamValue::Bool(false)),
        ],
    }
}

fn raw_with(content_type: &str, params: Vec<(&str, &str)>) -> RawProfile {
    RawProfile {
        title: "Profile".to_string(),
        base_bitrate: 10000,
        hdr_bitrate: 13000,
        content_type: content_type.to_string(),
        x265_params: params
            .into_iter()
            .map(|(k, v)| (k.to_string(), RawParamValue::Text(v.to_string())))
            .collect(),
    }
}

#[test]
fn test_encoding_profile_from_raw() {
    let raw = create_test_raw_profile();
    let profile = EncodingProfile::from_raw("test".to_string(), raw).unwrap();

    assert_eq!(profile.name, "test");
    assert_eq!(profile.title, "Test Profile");
    assert_eq!(profile.content_type, ContentType::Film);
    assert_eq!(profile.x265_params.get("preset"), Some(&"slow".to_string()));
    assert_eq!(profile.x265_params.get("crf"), Some(&"22".to_string()));
    assert_eq!(profile.x265_params.get("weightb"), Some(&"1".to_string()));
    assert_eq!(profile.x265_params.get("no-sao"), Some(&"0".to_string()));
}

#[test]
fn test_build_x265_params_string() {
    let raw = create_test_raw_profile();
    let profile = EncodingProfile::from_raw("test".to_string(), raw).unwrap();

    let params_str = profile.build_x265_params_string(None);
    assert!(params_str.contains("preset=slow"));
    assert!(params_str.contains("crf=22"));
    assert!(params_str.contains("weightb"));
    assert!(params_str.contains("no-sao=0"));
}

#[test]
fn test_hdr_parameter_injection() {
    let raw = create_test_raw_profile();
    let profile = EncodingProfile::from_raw("test".to_string(), raw).unwrap();

    let color_space = Some("bt2020nc".to_string());
    let transfer_function = Some("smpte2084".to_string());
    let color_primaries = Some("bt2020".to_string());
    let master_display = Some(
        "G(0.17,0.797)B(0.131,0.046)R(0.708,0.292)WP(0.3127,0.329)L(1000,0.01)".to_string(),
    );
    let max_cll = Some("1000".to_string());

    let params_str = profile.build_x265_params_string_with_hdr(
        None,
        Some(true),
        color_space.as_ref(),
        transfer_function.as_ref(),
        color_primaries.as_ref(),
        master_display.as_ref(),
        max_cll.as_ref(),
    );

    assert!(params_str.contains("colormatrix=bt2020nc"));
    assert!(params_str.contains("transfer=smpte2084"));
    assert!(params_str.contains("colorprim=bt2020"));
    assert!(params_str.contains(
        "master-display=G(0.17,0.797)B(0.131,0.046)R(0.708,0.292)WP(0.3127,0.329)L(1000,0.01)"
    ));
    assert!(params_str.contains("max-cll=1000,400"));
}

#[test]
fn test_no_hdr_parameter_injection_when_sdr() {
    let raw = create_test_raw_profile();
    let profile = EncodingProfile::from_raw("test".to_string(), raw).unwrap();

    let params_str = profile.build_x265_params_string_with_hdr(
        None,
        Some(false),
        Some(&"bt709".to_string()),
        Some(&"bt709".to_string()),
        Some(&"bt709".to_string()),
        None,
        None,
    );

    assert!(!params_str.contains("colormatrix=bt2020nc"));
    assert!(!params_str.contains("transfer=smpte2084"));
    assert!(!params_str.contains("colorprim=bt2020"));
    assert!(!params_str.contains("master-display"));
    assert!(!params_str.contains("max-cll"));
}

#[test]
fn test_profile_manager() {
    let mut manager = ProfileManager::new();
    let profiles = vec![("test".to_string(), create_test_raw_profile())];

    manager.load_profiles(profiles).unwrap();
    assert!(manager.get_profile("test").is_some());
    assert!(manager.get_profile("nonexistent").is_none());
    assert_eq!(manager.list_profiles().len(), 1);
}

#[test]
fn test_profile_dolby_vision_compatibility() {
    let raw = raw_with(
        "film",
        vec![("preset", "slow"), ("profile", "main10"), ("pix_fmt", "yuv420p10le")],
    );
    let profile = EncodingProfile::from_raw("dv_test".to_string(), raw).unwrap();
    assert!(profile.is_dolby_vision_compatible());
}

#[test]
fn test_dolby_vision_x265_parameter_building() {
    let raw = raw_with("film", vec![("preset", "slow"), ("profile", "main10")]);
    let profile = EncodingProfile::from_raw("dv_test".to_string(), raw).unwrap();

    let mut dv_info = DolbyVisionInfo::none();
    dv_info.profile = DolbyVisionProfile::Profile81;
    dv_info.has_rpu = true;

    let mut rpu_metadata =
        RpuMetadata::new("/tmp/test.rpu".to_string(), DolbyVisionProfile::Profile81);
    rpu_metadata.frame_count = Some(1000);
    rpu_metadata.extracted_successfully = true;
    rpu_metadata.file_size = Some(1024);

    let params_str = profile.build_x265_params_string_with_dolby_vision(
        None,
        Some(true),
        Some(&"bt2020nc".to_string()),
        Some(&"smpte2084".to_string()),
        Some(&"bt2020".to_string()),
        Some(&"G(0.17,0.797)B(0.131,0.046)R(0.708,0.292)WP(0.3127,0.329)L(1000,0.01)".to_string()),
        Some(&"1000".to_string()),
        Some(&dv_info),
        Some(&rpu_metadata),
    );

    assert!(params_str.contains("dolby-vision-rpu=/tmp/test.rpu"));
    assert!(params_str.contains("dolby-vision-profile=8.1"));
    assert!(params_str.contains("vbv-bufsize=160000"));
    assert!(params_str.contains("vbv-maxrate=160000"));
    assert!(params_str.contains("output-depth=10"));
    assert!(params_str.contains("colorprim=bt2020"));
    assert!(params_str.contains("transfer=smpte2084"));
    assert!(params_str.contains("colormatrix=bt2020nc"));
    assert!(params_str.contains(
        "master-display=G(0.17,0.797)B(0.131,0.046)R(0.708,0.292)WP(0.3127,0.329)L(1000,0.01)"
    ));
    assert!(params_str.contains("max-cll=1000,400"));
}

#[test]
fn dolby_vision_parameters_need_an_extracted_rpu() {
    let raw = raw_with("film", vec![("preset", "slow")]);
    let profile = EncodingProfile::from_raw("p".to_string(), raw).unwrap();
    let mut dv_info = DolbyVisionInfo::none();
    dv_info.profile = DolbyVisionProfile::Profile81;
    let rpu = RpuMetadata::new("/tmp/x.rpu".to_string(), DolbyVisionProfile::Profile81);
    let s = profile.build_x265_params_string_with_dolby_vision(
        None, Some(false), None, None, None, None, None, Some(&dv_info), Some(&rpu),
    );
    assert!(!s.contains("dolby-vision-rpu"));
    assert_eq!(s, "preset=slow");
}

#[test]
fn unknown_content_type_and_unsupported_value_are_refused() {
    let raw = raw_with("cartoon", vec![]);
    assert_eq!(
        EncodingProfile::from_raw("x".to_string(), raw).err(),
        Some(Error::Profile { message: "Invalid content type: cartoon".to_string() })
    );
    let mut raw = raw_with("film", vec![]);
    raw.x265_params.push(("zones".to_string(), RawParamValue::Other("[1, 2]".to_string())));
    assert!(matches!(EncodingProfile::from_raw("x".to_string(), raw), Err(Error::Profile { .. })));
}

#[test]
fn loading_stops_at_first_bad_profile() {
    let mut manager = ProfileManager::new();
    let profiles = vec![
        ("a".to_string(), raw_with("film", vec![])),
        ("b".to_string(), raw_with("nonsense", vec![])),
        ("c".to_string(), raw_with("anime", vec![])),
    ];
    assert!(manager.load_profiles(profiles).is_err());
    assert_eq!(manager.list_profiles().len(), 1);
    assert!(manager.get_profile("a").is_some());
    assert!(manager.get_profile("c").is_none());
}

fn manager_with(names: &[(&str, &str)]) -> ProfileManager {
    let mut manager = ProfileManager::new();
    let profiles = names
        .iter()
        .map(|(n, t)| (n.to_string(), raw_with(t, vec![])))
        .collect();
    manager.load_profiles(profiles).unwrap();
    manager
}

#[test]
fn recommendation_by_content_and_resolution() {
    let manager = manager_with(&[
        ("anime", "anime"),
        ("movie", "film"),
        ("movie_size_focused", "film"),
        ("3d_cgi", "3d_animation"),
        ("3d_complex", "3d_animation"),
    ]);
    let p = manager.recommend_profile_for_resolution(1920, 1080, ContentType::Anime).unwrap();
    assert_eq!(p.name, "anime");
    let p = manager.recommend_profile_for_resolution(1920, 1080, ContentType::Film).unwrap();
    assert_eq!(p.name, "movie_size_focused");
    let p = manager.recommend_profile_for_resolution(3840, 2160, ContentType::Film).unwrap();
    assert_eq!(p.name, "movie");
    let p = manager.recommend_profile_for_resolution(3840, 1600, ContentType::Animation3D).unwrap();
    assert_eq!(p.name, "3d_complex");
    let p = manager.recommend_profile_for_resolution(1280, 720, ContentType::Animation3D).unwrap();
    assert_eq!(p.name, "3d_cgi");
    assert!(manager.recommend_profile_for_resolution(1920, 1080, ContentType::HeavyGrain).is_none());
}

#[test]
fn profile_selection_for_an_encode() {
    let manager = manager_with(&[("anime", "anime"), ("movie", "film")]);
    let p = select_profile(&manager, "auto", 1920, 1080, ContentType::Anime).unwrap();
    assert_eq!(p.name, "anime");
    let p = select_profile(&manager, "auto", 1920, 1080, ContentType::HeavyGrain).unwrap();
    assert_eq!(p.name, "movie");
    let p = select_profile(&manager, "movie", 1920, 1080, ContentType::Anime).unwrap();
    assert_eq!(p.name, "movie");
    assert_eq!(
        select_profile(&manager, "missing", 1920, 1080, ContentType::Anime).err(),
        Some(Error::Profile { message: "Profile 'missing' not found".to_string() })
    );
    let only_anime = manager_with(&[("anime", "anime")]);
    assert_eq!(
        select_profile(&only_anime, "auto", 1920, 1080, ContentType::Film).err(),
        Some(Error::Profile { message: "Default 'movie' profile not found".to_string() })
    );
}

#[test]
fn invalid_profile_lists_valid_names_sorted() {
    let manager = manager_with(&[("movie", "film"), ("anime", "anime")]);
    assert!(check_profile_choice(&manager, "auto").is_ok());
    assert!(check_profile_choice(&manager, "anime").is_ok());
    assert_eq!(
        check_profile_choice(&manager, "bogus").err(),
        Some(Error::Validation {
            message: "Invalid profile: bogus (valid profiles: anime, auto, movie)".to_string()
        })
    );
}

#[test]
fn encoding_mode_names() {
    assert_eq!(encoding_mode_for("CRF").unwrap(), EncodingMode::CRF);
    assert_eq!(encoding_mode_for("abr").unwrap(), EncodingMode::ABR);
    assert_eq!(
        encoding_mode_for("vbr").err(),
        Some(Error::Encoding { message: "Invalid encoding mode: vbr".to_string() })
    );
}

#[test]
fn encode_and_batch_outcomes() {
    assert!(encoding_outcome(true, Some(0)).is_ok());
    assert_eq!(
        encoding_outcome(false, Some(1)).err(),
        Some(Error::Encoding { message: "Encoding failed with exit code: 1".to_string() })
    );
    assert_eq!(
        encoding_outcome(false, None).err(),
        Some(Error::Encoding { message: "Encoding failed with exit code: -1".to_string() })
    );
    assert_eq!(
        encoding_outcome(false, Some(-2147483648)).err(),
        Some(Error::Encoding {
            message: "Encoding failed with exit code: -2147483648".to_string()
        })
    );
    assert!(batch_outcome(1, 3).is_ok());
    assert!(batch_outcome(0, 0).is_ok());
    assert_eq!(
        batch_outcome(0, 2).err(),
        Some(Error::Encoding { message: "All files failed to process".to_string() })
    );
    assert!(require_inputs(1).is_ok());
    assert_eq!(
        require_inputs(0).err(),
        Some(Error::Validation {
            message: "At least one input path is required for encoding".to_string()
        })
    );
}

#[test]
fn configuration_profile_checks() {
    assert!(require_profiles(2).is_ok());
    assert_eq!(
        require_profiles(0).err(),
        Some(Error::Validation { message: "At least one profile must be defined".to_string() })
    );
    assert!(validate_raw_profile("movie", &raw_with("Film", vec![])).is_ok());
    let mut zero = raw_with("film", vec![]);
    zero.base_bitrate = 0;
    assert_eq!(
        validate_raw_profile("movie", &zero).err(),
        Some(Error::Validation {
            message: "Invalid base_bitrate for profile 'movie': must be greater than 0".to_string()
        })
    );
    assert_eq!(
        validate_raw_profile("movie", &raw_with("cartoon", vec![])).err(),
        Some(Error::Validation {
            message: "Invalid content_type for profile 'movie': cartoon".to_string()
        })
    );
}

use ffmpeg_autoencoder::processing::{generate_uuid_filename, output_path_for};

fn is_uuid(s: &str) -> bool {
    s.len() == 36 && [8, 13, 18, 23].iter().all(|&i| s.as_bytes()[i] == b'-')
}

#[test]
fn output_names_keep_the_original_name() {
    let p = generate_uuid_filename("/videos/My Film.mkv", None);
    assert!(p.starts_with("/videos/My Film_"));
    assert!(p.ends_with(".mkv"));
    assert!(is_uuid(&p["/videos/My Film_".len()..p.len() - 4]));

    let q = generate_uuid_filename("/videos/clip.mp4", Some("/out"));
    assert!(q.starts_with("/out/clip_"));
    assert!(q.ends_with(".mp4"));

    let r = generate_uuid_filename("/videos/noext", None);
    assert!(r.starts_with("/videos/noext_"));
    assert!(is_uuid(&r["/videos/noext_".len()..]));
}

#[test]
fn output_path_per_batch_size() {
    assert_eq!(output_path_for("/v/a.mkv", Some("/o/final.mkv"), 1), "/o/final.mkv");
    let batch = output_path_for("/v/a.mkv", Some("/o/final.mkv"), 3);
    assert!(batch.starts_with("/o/a_") && batch.ends_with(".mkv"));
    let beside = output_path_for("/v/a.mkv", None, 1);
    assert!(beside.starts_with("/v/a_") && beside.ends_with(".mkv"));
}
