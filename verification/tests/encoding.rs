use ffmpeg_autoencoder::encoding::filters::{validate_crop_format, FilterChain};
use ffmpeg_autoencoder::encoding::modes::EncodingMode;
use ffmpeg_autoencoder::encoding::options::EncodingOptions;

#[test]
fn test_empty_filter_chain() {
    let chain = FilterChain::new();
    assert!(chain.is_empty());
    assert_eq!(chain.build_ffmpeg_args(), Vec::<String>::new());
}

#[test]
fn test_filter_chain_with_filters() {
    let mut chain = FilterChain::new();
    chain.add_filter("crop=1920:800:0:140".to_string());
    chain.add_filter("hqdn3d=1:1:2:2".to_string());

    assert!(!chain.is_empty());
    assert_eq!(
        chain.build_ffmpeg_args(),
        vec!["-filter_complex", "[0:v]crop=1920:800:0:140,hqdn3d=1:1:2:2[v]"]
    );
}

#[test]
fn filters_test_validate_crop_format() {
    assert!(validate_crop_format("1920:800:0:140").is_ok());
    assert!(validate_crop_format("invalid").is_err());
    assert!(validate_crop_format("1920:800:0").is_err());
    assert!(validate_crop_format("1920:800:0:invalid").is_err());
}

#[test]
fn test_encoding_mode_from_str() {
    assert_eq!(EncodingMode::from_str("crf"), Some(EncodingMode::CRF));
    assert_eq!(EncodingMode::from_str("CRF"), Some(EncodingMode::CRF));
    assert_eq!(EncodingMode::from_str("abr"), Some(EncodingMode::ABR));
    assert_eq!(EncodingMode::from_str("cbr"), Some(EncodingMode::CBR));
    assert_eq!(EncodingMode::from_str("invalid"), None);
}

#[test]
fn test_encoding_mode_as_str() {
    assert_eq!(EncodingMode::CRF.as_str(), "crf");
    assert_eq!(EncodingMode::ABR.as_str(), "abr");
    assert_eq!(EncodingMode::CBR.as_str(), "cbr");
}

#[test]
fn options_test_validate_crop_format() {
    let options = EncodingOptions::default();

    assert!(options.is_valid_crop_format("1920:800:0:140"));
    assert!(options.is_valid_crop_format("1280:720:0:0"));
    assert!(!options.is_valid_crop_format("1920:800:0"));
    assert!(!options.is_valid_crop_format("1920:800:0:abc"));
    assert!(!options.is_valid_crop_format("invalid"));
}

use ffmpeg_autoencoder::config::profiles::{EncodingProfile, RawParamValue, RawProfile};
use ffmpeg_autoencoder::config::types::{DeinterlaceConfig, DenoiseConfig, FiltersConfig, NnediSettings};
use ffmpeg_autoencoder::encoding::filters::FilterBuilder;
use ffmpeg_autoencoder::encoding::modes::{AbrEncoder, CbrEncoder, CrfEncoder};
use ffmpeg_autoencoder::stream::preservation::{StreamMapping, StreamPreservation};
use ffmpeg_autoencoder::utils::FfmpegWrapper;

fn test_filters(field: &str) -> FiltersConfig {
    FiltersConfig {
        deinterlace: DeinterlaceConfig {
            primary_method: "nnedi".to_string(),
            fallback_method: "yadif".to_string(),
            nnedi_settings: NnediSettings { field: field.to_string() },
        },
        denoise: DenoiseConfig { filter: "hqdn3d".to_string(), params: "1:1:2:2".to_string() },
    }
}

#[test]
fn test_filter_builder_with_all_options() {
    let builder = FilterBuilder::new(test_filters("auto"), None, false);

    let result = builder.build_complete_chain(true, true, Some("1920:800:0:140"));

    assert!(result.is_ok());
    let chain = result.unwrap();
    assert!(!chain.is_empty());
    assert_eq!(
        chain.to_string(),
        "yadif=mode=send_field:parity=auto:deint=interlaced,hqdn3d=1:1:2:2,crop=1920:800:0:140"
    );
}

#[test]
fn test_nnedi_filter_construction() {
    let weights_path = "/tmp/test_weights.bin";
    let builder = FilterBuilder::new(test_filters("auto"), Some(weights_path.to_string()), true);
    let filter_result = builder.build_deinterlace_filter();

    assert!(filter_result.is_ok());
    let filter = filter_result.unwrap();
    assert!(filter.contains("nnedi="));
    assert!(filter.contains(&format!("weights={}", weights_path)));
    assert!(filter.contains("field=-1"));
}

#[test]
fn test_nnedi_field_mapping() {
    let weights = Some("/tmp/test_weights.bin".to_string());
    let builder = FilterBuilder::new(test_filters("af"), weights.clone(), true);
    assert!(builder.build_deinterlace_filter().unwrap().contains("field=-2"));
    let builder = FilterBuilder::new(test_filters("a"), weights.clone(), true);
    assert!(builder.build_deinterlace_filter().unwrap().contains("field=-1"));
    let builder = FilterBuilder::new(test_filters("t"), weights, true);
    assert!(builder.build_deinterlace_filter().unwrap().contains("field=0"));
}

#[test]
fn nnedi_without_weights_falls_back() {
    let builder = FilterBuilder::new(test_filters("auto"), Some("/w.bin".to_string()), false);
    assert_eq!(
        builder.build_deinterlace_filter().unwrap(),
        "yadif=mode=send_field:parity=auto:deint=interlaced"
    );
    let mut filters = test_filters("auto");
    filters.deinterlace.primary_method = "kerndeint".to_string();
    let builder = FilterBuilder::new(filters, None, false);
    assert_eq!(
        builder.build_deinterlace_filter().err().map(|e| format!("{:?}", e)),
        Some("Encoding { message: \"Unsupported deinterlace method: kerndeint\" }".to_string())
    );
}

#[test]
fn test_encoding_options_builder() {
    let options = EncodingOptions::new("input.mkv".to_string(), "output.mkv".to_string())
        .with_profile("anime".to_string())
        .with_mode("crf".to_string())
        .with_title("Test Movie".to_string())
        .with_crop(Some("1920:800:0:140".to_string()))
        .with_denoise(true);

    assert_eq!(options.profile_name, "anime");
    assert_eq!(options.mode, "crf");
    assert_eq!(options.title, Some("Test Movie".to_string()));
    assert_eq!(options.crop, Some("1920:800:0:140".to_string()));
    assert!(options.denoise);
}

fn simple_profile() -> EncodingProfile {
    let raw = RawProfile {
        title: "T".to_string(),
        base_bitrate: 5000,
        hdr_bitrate: 6000,
        content_type: "film".to_string(),
        x265_params: vec![("preset".to_string(), RawParamValue::Text("slow".to_string()))],
    };
    EncodingProfile::from_raw("t".to_string(), raw).unwrap()
}

fn empty_mapping() -> StreamMapping {
    StreamMapping {
        video_streams: vec![],
        audio_streams: vec![],
        subtitle_streams: vec![],
        data_streams: vec![],
        chapters: vec![],
        metadata: vec![],
        mapping_args: vec!["-map".to_string(), "0:0".to_string()],
    }
}

fn preservation() -> StreamPreservation {
    StreamPreservation::new(FfmpegWrapper::new("ffmpeg".to_string(), "ffprobe".to_string()))
}

#[test]
fn crf_encode_arguments() {
    let args = CrfEncoder.build_args(
        "in.mkv",
        "out.mkv",
        &simple_profile(),
        &FilterChain::new(),
        &empty_mapping(),
        "21.5",
        Some("Title"),
        &preservation(),
    );
    assert_eq!(
        args,
        vec![
            "-i", "in.mkv", "-map", "0:0", "-c:v", "libx265", "-x265-params",
            "preset=slow:crf=21.5", "-map_metadata", "0", "-map_chapters", "0", "-metadata",
            "title=Title", "-movflags", "+faststart", "out.mkv",
        ]
    );
}

#[test]
fn two_pass_arguments_and_vbv() {
    let abr = AbrEncoder;
    let first = abr.first_pass_args("in.mkv", &simple_profile(), &FilterChain::new(), 8000, "/tmp/s", true);
    assert_eq!(
        first,
        vec![
            "-i", "in.mkv", "-c:v", "libx265", "-x265-params",
            "preset=medium:pass:bitrate=8000:stats=/tmp/s:no-slow-firstpass:vbv-bufsize=12000:vbv-maxrate=8000:nal-hrd=cbr",
            "-an", "-sn", "-f", "null", "/dev/null",
        ]
    );
    let second = abr.second_pass_args(
        "in.mkv", "out.mkv", &simple_profile(), &FilterChain::new(), &empty_mapping(), 8000, None,
        "/tmp/s", false, &preservation(),
    );
    assert_eq!(second[7], "preset=slow:pass=2:bitrate=8000:stats=/tmp/s");
    assert_eq!(second.last().unwrap(), "out.mkv");
    let _cbr = CbrEncoder::new();
}

#[test]
fn stats_files_and_first_pass_outcome() {
    assert_eq!(
        AbrEncoder::stats_files("/tmp/p"),
        vec!["/tmp/p-0.log", "/tmp/p-0.log.mbtree", "/tmp/p-0.log.temp"]
    );
    let s = AbrEncoder::new_stats_file();
    assert!(s.starts_with("/tmp/ffmpeg2pass_"));
    assert_eq!(s.len(), "/tmp/ffmpeg2pass_".len() + 36);
    assert!(AbrEncoder::check_first_pass(true).is_ok());
    assert!(AbrEncoder::check_first_pass(false).is_err());
}
