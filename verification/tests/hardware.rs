use ffmpeg_autoencoder::hardware::cuda::HardwareAcceleration;

#[test]
fn test_hardware_acceleration_from_str() {
    assert!(matches!(HardwareAcceleration::from_str("none"), HardwareAcceleration::Disabled));
    assert!(matches!(HardwareAcceleration::from_str("decode"), HardwareAcceleration::CudaDecode));
    assert!(matches!(HardwareAcceleration::from_str("full"), HardwareAcceleration::CudaFull));
}

#[test]
fn test_acceleration_level_checks() {
    let full = HardwareAcceleration::CudaFull;
    assert!(full.uses_decode_acceleration());
    assert!(full.uses_encode_acceleration());
    assert!(full.uses_filter_acceleration());

    let none = HardwareAcceleration::Disabled;
    assert!(!none.uses_decode_acceleration());
    assert!(!none.uses_encode_acceleration());
    assert!(!none.uses_filter_acceleration());
}
