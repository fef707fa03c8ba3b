use ffmpeg_autoencoder::analysis::crop::crop_limit;
use ffmpeg_autoencoder::encoding::modes::AbrEncoder;
use ffmpeg_autoencoder::processing::is_video_file;
use ffmpeg_autoencoder::stream::probe::{
    get_chapter_info, get_stream_info, RawDisposition, RawProbeChapter, RawProbeStream,
};
use ffmpeg_autoencoder::analysis::crop::{cropdetect_args, extract_crop_from_output, CropValues};
use ffmpeg_autoencoder::hdr::detection::{ProbeReport, ProbeStream};
use ffmpeg_autoencoder::hdr::{HdrDetector, HdrFormat, HlgHandler};
use ffmpeg_autoencoder::hdr10plus::Hdr10PlusManager;
use ffmpeg_autoencoder::preview::{preview_file_path, preview_output_dir};
use ffmpeg_autoencoder::config::types::{RawPreviewProfile, ToolConfig};
use ffmpeg_autoencoder::config::PreviewProfileManager;
use ffmpeg_autoencoder::encoding::filters::validate_crop_format;
use ffmpeg_autoencoder::encoding::modes::EncodingMode;
use ffmpeg_autoencoder::hardware::CudaAccelerator;
use ffmpeg_autoencoder::hdr::{ContentLightLevelInfo, HdrEncodingParameterBuilder, HdrMetadataExtractor};
use ffmpeg_autoencoder::hdr10plus::metadata::{
    BezierCurveData, Hdr10PlusMetadata, Hdr10PlusProcessingResult, LuminanceParameters, SceneMetadata,
};
use ffmpeg_autoencoder::metadata_workflow::{MetadataWorkflowManager, ToolAvailability};
use ffmpeg_autoencoder::params::ParamMap;

#[test]
fn mode_parse_ignores_ascii_case() {
    for name in ["CRF", "Crf", "aBr", "CBR", "cbr", "xyz", "CRFX"] {
        let lower = name.to_lowercase();
        assert_eq!(EncodingMode::from_str(name), EncodingMode::from_str(&lower));
    }
    assert_eq!(EncodingMode::from_str("CrF"), Some(EncodingMode::CRF));
}

#[test]
fn crop_text_always_validates() {
    for c in [
        CropValues::new(1920, 800, 0, 140),
        CropValues::new(0, 0, 0, 0),
        CropValues::new(u32::MAX, u32::MAX, u32::MAX, u32::MAX),
    ] {
        let text = c.to_ffmpeg_string();
        assert!(validate_crop_format(&text).is_ok());
        let parts: Vec<u32> = text.split(':').map(|p| p.parse().unwrap()).collect();
        assert_eq!(parts, vec![c.width, c.height, c.x, c.y]);
    }
}

#[test]
fn crop_pattern_reads_groups() {
    let out = "[Parsed_cropdetect_0] x1:0 crop=1920:800:0:140\n";
    assert_eq!(extract_crop_from_output(out), Some(CropValues::new(1920, 800, 0, 140)));
    assert_eq!(extract_crop_from_output("no report here"), None);
}

#[test]
fn cli_params_split_back_into_entries() {
    let mut params = ParamMap::new();
    assert_eq!(HdrEncodingParameterBuilder::format_params_for_command_line(&params), "");
    params.insert("hdr10".to_string(), String::new());
    params.insert("max-cll".to_string(), "1000,400".to_string());
    params.insert("colorprim".to_string(), "bt2020".to_string());
    let text = HdrEncodingParameterBuilder::format_params_for_command_line(&params);
    let mut parts: Vec<&str> = text.split(':').collect();
    parts.sort();
    assert_eq!(parts, vec!["colorprim=bt2020", "hdr10", "max-cll=1000,400"]);
}

#[test]
fn light_level_text_reads_back() {
    for (cll, fall) in [(1000, 400), (0, 0), (u32::MAX, 1)] {
        let c = ContentLightLevelInfo { max_cll: cll, max_fall: fall };
        let text = HdrMetadataExtractor::format_content_light_level_for_x265(&c);
        assert_eq!(HdrMetadataExtractor::parse_content_light_level(&text).unwrap(), c);
    }
}

fn frame(scene_id: u32, anchors: Vec<u32>) -> SceneMetadata {
    SceneMetadata {
        scene_id,
        scene_frame_index: 0,
        sequence_frame_index: 0,
        number_of_windows: 1,
        targeted_system_display_maximum_luminance: 400,
        bezier_curve_data: BezierCurveData { knee_point_x: 0, knee_point_y: 0, anchors },
        luminance_parameters: LuminanceParameters {
            average_rgb: 0,
            max_scl: vec![100, 200, 300],
            luminance_distributions: None,
        },
    }
}

#[test]
fn tone_mapping_counts_agree() {
    let mut m = Hdr10PlusMetadata::default();
    m.scene_info = vec![frame(0, vec![]), frame(1, vec![])];
    assert!(!m.has_tone_mapping_curves());
    assert_eq!(m.get_tone_mapping_frame_count(), 0);
    m.scene_info.push(frame(4, vec![1, 2]));
    assert!(m.has_tone_mapping_curves());
    assert_eq!(m.get_tone_mapping_frame_count(), 1);
    assert!(m.get_tone_mapping_frame_count() <= m.get_frame_count());
    assert_eq!(m.get_frame_count(), 3);
    let r = Hdr10PlusProcessingResult::new("/tmp/m.json".to_string(), m.clone(), true);
    assert_eq!(r.curve_count, m.get_tone_mapping_frame_count());
    assert_eq!(r.scene_count, m.get_scene_count());
    assert_eq!(r.scene_count, 5);
    assert_eq!(r.file_size, None);
}

#[test]
fn temp_output_name_and_place() {
    let workflow = MetadataWorkflowManager::new(
        "/tmp".to_string(),
        false,
        false,
        Some(ToolConfig::default()),
        None,
        ToolAvailability { dovi_tool: false, hdr10plus_tool: false },
    );
    for p in ["/out/movie.mkv", "movie.mkv", "a/b/c.mp4"] {
        let t = workflow.get_temp_output_path(p);
        let final_path = std::path::Path::new(p);
        let temp = std::path::Path::new(&t);
        assert_ne!(t, p);
        assert_eq!(
            temp.file_name().unwrap().to_str().unwrap(),
            format!("temp_encode_{}", final_path.file_name().unwrap().to_str().unwrap())
        );
        assert_eq!(temp.parent(), final_path.parent());
    }
    let t = workflow.get_temp_output_path("/");
    assert_eq!(t, "./temp_encode_output.mkv");
    assert_eq!(std::path::Path::new(&t).parent(), Some(std::path::Path::new(".")));
}

#[test]
fn nvidia_smi_devices_have_no_compute_capability() {
    let info = CudaAccelerator::check_cuda_with_nvidia_smi(Some(
        "0, NVIDIA GeForce RTX 3080, 10240, 535.54\n1, NVIDIA A100, 40960, 535.54\n",
    ))
    .unwrap();
    assert_eq!(info.devices.len(), 2);
    assert!(info.devices.iter().all(|d| d.compute_capability.is_none()));
    assert_eq!(info.devices[1].memory_mb, Some(40960));
    assert_eq!(info.version.as_deref(), Some("535.54"));
}

#[test]
fn preview_group_names_are_unique_and_sorted() {
    let raw = vec![
        ("zeta".to_string(), RawPreviewProfile { title: "Z".to_string(), profiles: vec!["a".to_string()] }),
        ("alpha".to_string(), RawPreviewProfile { title: "A".to_string(), profiles: vec!["b".to_string()] }),
    ];
    let m = PreviewProfileManager::new(raw).unwrap();
    assert_eq!(m.list_profile_names(), vec!["alpha", "zeta"]);
    assert_eq!(m.list_profiles().len(), 2);
}

#[test]
fn preview_file_lies_in_input_directory() {
    for input in ["/videos/a.mkv", "a.mkv", "x/y/z.mp4"] {
        let dir = preview_output_dir(None, input);
        let path = preview_file_path(&dir, "movie", "30s", "0f8fad5b-d9cb-469f-a165-70867728950e", true);
        let p = std::path::Path::new(&path);
        assert_eq!(p.parent(), std::path::Path::new(input).parent());
        assert_eq!(
            p.file_name().unwrap().to_str().unwrap(),
            "0f8fad5b-d9cb-469f-a165-70867728950e_preview_movie_30s.png"
        );
    }
}

#[test]
fn hlg_defaults_keep_existing_values() {
    let mut params = ParamMap::new();
    params.insert("rd".to_string(), "6".to_string());
    params.insert("crf".to_string(), "18".to_string());
    HlgHandler::new().add_hlg_optimizations(&mut params);
    assert_eq!(params.get("rd").map(|s| s.as_str()), Some("6"));
    assert_eq!(params.get("crf").map(|s| s.as_str()), Some("18"));
    assert_eq!(params.get("psy-rd").map(|s| s.as_str()), Some("1.8"));
    assert_eq!(params.get("keyint").map(|s| s.as_str()), Some("250"));
    assert_eq!(params.get("sao").map(|s| s.as_str()), Some(""));
    assert_eq!(params.get("tune"), None);
}

#[test]
fn accepted_hdr10plus_metadata_is_counted() {
    let mut m = Hdr10PlusMetadata::default();
    let mut a = frame(0, vec![1; 9]);
    a.sequence_frame_index = 0;
    let mut b = frame(2, vec![]);
    b.sequence_frame_index = 1;
    m.scene_info = vec![a, b];
    let r = Hdr10PlusManager::accept_extracted_metadata("/tmp/m.json".to_string(), m, Some(42)).unwrap();
    assert_eq!(r.curve_count, 1);
    assert_eq!(r.scene_count, 3);
    assert_eq!(r.file_size, Some(42));
    assert!(r.extraction_successful);
}

#[test]
fn cropdetect_command_and_pixel_counts() {
    assert_eq!(
        cropdetect_args("12.5", "/v/a.mkv", 24),
        vec!["-ss", "12.5", "-i", "/v/a.mkv", "-t", "2", "-vf", "cropdetect=limit=24:round=2", "-f", "null", "-"]
    );
    let c = CropValues::new(1920, 800, 0, 140);
    assert_eq!(c.pixel_counts(1920, 1080), (2073600, 537600));
    assert_eq!(CropValues::new(4000, 10, 0, 0).pixel_counts(10, 10), (100, -39900));
    assert_eq!(
        CropValues::new(0, 0, 0, 0).pixel_counts(u32::MAX, u32::MAX),
        ((u32::MAX as u64) * (u32::MAX as u64), ((u32::MAX as u64) * (u32::MAX as u64)) as i128)
    );
}

#[test]
fn hdr_format_of_a_probe_report() {
    let report = ProbeReport {
        first_stream: Some(ProbeStream {
            color_space: Some("bt2020nc".to_string()),
            color_transfer: Some("arib-std-b67".to_string()),
            color_primaries: Some("bt2020".to_string()),
            bits_per_raw_sample: Some("10".to_string()),
            chroma_location: None,
            side_data_list: None,
        }),
        frames: None,
    };
    assert_eq!(HdrDetector::new(true).analyze_format(&report).unwrap(), HdrFormat::HLG);
    assert_eq!(HdrDetector::new(false).analyze_format(&report).unwrap(), HdrFormat::Sdr);
    let empty = ProbeReport { first_stream: None, frames: None };
    assert!(HdrDetector::new(true).analyze_format(&empty).is_err());
    assert_eq!(HdrDetector::new(false).analyze_format(&empty).unwrap(), HdrFormat::Sdr);
}

#[test]
fn probe_streams_numbered_by_position_with_defaults() {
    let disp = RawDisposition {
        default: Some(1),
        forced: Some(0),
        comment: None,
        lyrics: Some(2),
        karaoke: None,
        original: None,
        dub: None,
        visual_impaired: None,
        hearing_impaired: Some(1),
    };
    let raw = vec![
        RawProbeStream {
            codec_type: Some("video".to_string()),
            codec_name: Some("hevc".to_string()),
            language: None,
            title: None,
            disposition: None,
        },
        RawProbeStream {
            codec_type: None,
            codec_name: None,
            language: Some("eng".to_string()),
            title: Some("Commentary".to_string()),
            disposition: Some(disp),
        },
    ];
    let s = get_stream_info(&raw);
    assert_eq!(s.len(), 2);
    assert_eq!((s[0].index, s[0].codec_type.as_str(), s[0].codec_name.as_str()), (0, "video", "hevc"));
    assert!(!s[0].disposition.default);
    assert_eq!((s[1].index, s[1].codec_type.as_str(), s[1].codec_name.as_str()), (1, "unknown", "unknown"));
    assert_eq!(s[1].language.as_deref(), Some("eng"));
    assert_eq!(s[1].title.as_deref(), Some("Commentary"));
    assert!(s[1].disposition.default && s[1].disposition.hearing_impaired);
    assert!(!s[1].disposition.forced && !s[1].disposition.lyrics && !s[1].disposition.comment);

    let ch = get_chapter_info(&vec![
        RawProbeChapter { id: Some(3), time_base: None, start: Some(0), end: None, title: Some("One".to_string()) },
        RawProbeChapter { id: None, time_base: Some("1/90000".to_string()), start: None, end: Some(9), title: None },
    ]);
    assert_eq!((ch[0].id, ch[0].time_base.as_str(), ch[0].start, ch[0].end), (3, "1/1000", 0, 0));
    assert_eq!(ch[0].title.as_deref(), Some("One"));
    assert_eq!((ch[1].id, ch[1].time_base.as_str(), ch[1].start, ch[1].end), (0, "1/90000", 0, 9));
}

#[test]
fn crop_limit_and_video_files() {
    assert_eq!(crop_limit(true, 24, 64), 64);
    assert_eq!(crop_limit(false, 24, 64), 24);
    assert!(is_video_file("/v/a.MKV"));
    assert!(is_video_file("b.m2ts"));
    assert!(!is_video_file("notes.txt"));
    assert!(!is_video_file("mkv"));
}

#[test]
fn stats_file_holds_a_uuid() {
    let f = AbrEncoder::new_stats_file();
    let id = f.strip_prefix("/tmp/ffmpeg2pass_").unwrap();
    assert_eq!(id.len(), 36);
    for (i, c) in id.chars().enumerate() {
        if [8, 13, 18, 23].contains(&i) {
            assert_eq!(c, '-');
        } else {
            assert!(c.is_ascii_hexdigit() && !c.is_ascii_uppercase());
        }
    }
}
