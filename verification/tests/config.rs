use ffmpeg_autoencoder::config::types::{RawPreviewProfile, RawStreamSelectionProfile};
use ffmpeg_autoencoder::config::{PreviewProfileManager, StreamSelectionProfileManager};

#[test]
fn test_preview_profile_manager() {
    let raw_profiles = vec![(
        "anime_test".to_string(),
        RawPreviewProfile {
            title: "Anime Test".to_string(),
            profiles: vec!["anime".to_string(), "anime_new".to_string()],
        },
    )];

    let manager = PreviewProfileManager::new(raw_profiles).unwrap();
    assert!(!manager.is_empty());
    assert_eq!(manager.list_profile_names(), vec!["anime_test"]);

    let profile = manager.get_profile("anime_test").unwrap();
    assert_eq!(profile.title, "Anime Test");
    assert_eq!(profile.profiles.len(), 2);
}

#[test]
fn test_empty_profiles_validation() {
    let raw_profiles = vec![(
        "invalid".to_string(),
        RawPreviewProfile { title: "Invalid".to_string(), profiles: vec![] },
    )];

    let result = PreviewProfileManager::new(raw_profiles);
    assert!(result.is_err());
}

#[test]
fn test_stream_profile_manager_creation() {
    let raw_profiles: Vec<(String, RawStreamSelectionProfile)> = Vec::new();
    let manager = StreamSelectionProfileManager::new(raw_profiles).unwrap();

    assert!(!manager.list_profiles().is_empty());
    assert!(manager.has_profile("default"));
    assert!(manager.has_profile("english_only"));
    assert!(manager.has_profile("minimal"));
}

#[test]
fn test_get_profile() {
    let manager = StreamSelectionProfileManager::new(Vec::new()).unwrap();
    let profile = manager.get_profile("english_only").unwrap();

    assert_eq!(profile.name, "english_only");
    assert_eq!(profile.audio.languages, Some(vec!["eng".to_string()]));
    assert!(profile.audio.exclude_commentary);
}

#[test]
fn test_invalid_profile() {
    let manager = StreamSelectionProfileManager::new(Vec::new()).unwrap();
    let result = manager.get_profile("nonexistent");

    assert!(result.is_err());
}

#[test]
fn test_multilang_profile_structure() {
    let manager = StreamSelectionProfileManager::new(Vec::new()).unwrap();
    let profile = manager.get_profile("multilang").unwrap();

    assert_eq!(profile.audio.languages, Some(vec!["eng".to_string(), "jpn".to_string()]));
    assert_eq!(
        profile.audio.codecs,
        Some(vec!["aac".to_string(), "ac3".to_string(), "dts".to_string()])
    );
    assert_eq!(
        profile.subtitle.dispositions,
        Some(vec!["forced".to_string(), "default".to_string()])
    );
    assert!(profile.audio.title_patterns.is_some());
    assert_eq!(profile.audio.max_streams, Some(3));
    assert_eq!(profile.subtitle.max_streams, Some(4));
}
