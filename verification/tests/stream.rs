use ffmpeg_autoencoder::stream::preservation::{StreamDisposition, StreamInfo, StreamPreservation};
use ffmpeg_autoencoder::utils::FfmpegWrapper;

fn disposition(default: bool, original: bool) -> StreamDisposition {
    let mut d = StreamDisposition::none();
    d.default = default;
    d.original = original;
    d
}

#[test]
fn test_mapping_arguments_construction() {
    let ffmpeg = FfmpegWrapper::new("ffmpeg".to_string(), "ffprobe".to_string());
    let preservation = StreamPreservation::new(ffmpeg);

    let streams = vec![
        StreamInfo {
            index: 0,
            codec_type: "video".to_string(),
            codec_name: "h264".to_string(),
            language: None,
            title: None,
            disposition: disposition(true, false),
        },
        StreamInfo {
            index: 1,
            codec_type: "audio".to_string(),
            codec_name: "aac".to_string(),
            language: Some("eng".to_string()),
            title: Some("English Audio".to_string()),
            disposition: disposition(true, true),
        },
    ];

    let mapping_args = preservation.build_mapping_arguments(&streams).unwrap();

    assert!(mapping_args.contains(&"-map".to_string()));
    assert!(mapping_args.contains(&"0:v:0".to_string()));
    assert!(mapping_args.contains(&"0:a".to_string()));
    assert!(mapping_args.contains(&"0:s?".to_string()));
    assert!(mapping_args.contains(&"-c:a".to_string()));
    assert!(mapping_args.contains(&"copy".to_string()));
}

#[test]
fn test_mapping_arguments_video_only() {
    let ffmpeg = FfmpegWrapper::new("ffmpeg".to_string(), "ffprobe".to_string());
    let preservation = StreamPreservation::new(ffmpeg);

    let streams = vec![StreamInfo {
        index: 0,
        codec_type: "video".to_string(),
        codec_name: "h264".to_string(),
        language: None,
        title: None,
        disposition: disposition(true, false),
    }];

    let mapping_args = preservation.build_mapping_arguments(&streams).unwrap();

    assert!(mapping_args.contains(&"-map".to_string()));
    assert!(mapping_args.contains(&"0:v:0".to_string()));
    assert!(!mapping_args.contains(&"0:a".to_string()));
    assert!(mapping_args.contains(&"0:s?".to_string()));
    assert!(!mapping_args.contains(&"-c:a".to_string()));
}

use ffmpeg_autoencoder::config::types::{AudioSelectionConfig, SubtitleSelectionConfig};

fn stream(
    index: u32,
    kind: &str,
    codec: &str,
    language: &str,
    title: &str,
    disposition: StreamDisposition,
) -> StreamInfo {
    StreamInfo {
        index,
        codec_type: kind.to_string(),
        codec_name: codec.to_string(),
        language: Some(language.to_string()),
        title: Some(title.to_string()),
        disposition,
    }
}

fn flags(default: bool, forced: bool, comment: bool, original: bool, dub: bool) -> StreamDisposition {
    let mut d = StreamDisposition::none();
    d.default = default;
    d.forced = forced;
    d.comment = comment;
    d.original = original;
    d.dub = dub;
    d
}

#[test]
fn test_audio_stream_filtering_by_language() {
    let ffmpeg = FfmpegWrapper::new("ffmpeg".to_string(), "ffprobe".to_string());
    let preservation = StreamPreservation::new(ffmpeg);

    let streams = vec![
        stream(1, "audio", "aac", "eng", "English Audio", flags(true, false, false, true, false)),
        stream(2, "audio", "aac", "jpn", "Japanese Audio", flags(false, false, false, true, false)),
        stream(3, "audio", "aac", "ger", "German Audio", flags(false, false, false, false, true)),
    ];

    let config = AudioSelectionConfig {
        languages: Some(vec!["eng".to_string(), "jpn".to_string()]),
        ..Default::default()
    };

    let filtered = preservation.filter_audio_streams(streams, &config).unwrap();

    assert_eq!(filtered.len(), 2);
    assert_eq!(filtered[0].language.as_ref().unwrap(), "eng");
    assert_eq!(filtered[1].language.as_ref().unwrap(), "jpn");
}

#[test]
fn test_audio_stream_filtering_exclude_commentary() {
    let ffmpeg = FfmpegWrapper::new("ffmpeg".to_string(), "ffprobe".to_string());
    let preservation = StreamPreservation::new(ffmpeg);

    let streams = vec![
        stream(1, "audio", "aac", "eng", "English Audio", flags(true, false, false, true, false)),
        stream(2, "audio", "aac", "eng", "Director Commentary", flags(false, false, true, false, false)),
    ];

    let config = AudioSelectionConfig { exclude_commentary: true, ..Default::default() };

    let filtered = preservation.filter_audio_streams(streams, &config).unwrap();

    assert_eq!(filtered.len(), 1);
    assert_eq!(filtered[0].title.as_ref().unwrap(), "English Audio");
}

#[test]
fn test_subtitle_stream_filtering_forced_only() {
    let ffmpeg = FfmpegWrapper::new("ffmpeg".to_string(), "ffprobe".to_string());
    let preservation = StreamPreservation::new(ffmpeg);

    let streams = vec![
        stream(4, "subtitle", "subrip", "eng", "English Subtitles", flags(true, false, false, false, false)),
        stream(5, "subtitle", "subrip", "eng", "English Forced", flags(false, true, false, false, false)),
    ];

    let config = SubtitleSelectionConfig { include_forced_only: true, ..Default::default() };

    let filtered = preservation.filter_subtitle_streams(streams, &config).unwrap();

    assert_eq!(filtered.len(), 1);
    assert_eq!(filtered[0].title.as_ref().unwrap(), "English Forced");
    assert!(filtered[0].disposition.forced);
}

#[test]
fn audio_selection_caps_the_count() {
    let preservation =
        StreamPreservation::new(FfmpegWrapper::new("ffmpeg".to_string(), "ffprobe".to_string()));
    let streams = vec![
        stream(1, "audio", "aac", "eng", "A", flags(true, false, false, false, false)),
        stream(2, "audio", "ac3", "eng", "B", flags(false, false, false, false, false)),
        stream(3, "audio", "dts", "eng", "C", flags(false, false, false, false, false)),
    ];
    let config = AudioSelectionConfig { max_streams: Some(2), ..Default::default() };
    let filtered = preservation.filter_audio_streams(streams, &config).unwrap();
    assert_eq!(filtered.iter().map(|s| s.index).collect::<Vec<_>>(), vec![1, 2]);
}
