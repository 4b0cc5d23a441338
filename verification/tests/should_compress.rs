use bandwidth_hero_proxy::should_compress::{is_supported_image_type, should_compress, Config};

#[test]
fn test_should_compress_valid_image() {
    let config = Config::default();
    assert!(should_compress("image/jpeg", 5000, false, &config));
    assert!(should_compress("image/png", 150000, false, &config));
}

#[test]
fn test_should_compress_too_small() {
    let config = Config::default();
    assert!(!should_compress("image/jpeg", 1000, false, &config));
}

#[test]
fn test_should_compress_too_large() {
    let config = Config::default();
    assert!(!should_compress("image/jpeg", 6 * 1024 * 1024, false, &config));
}

#[test]
fn test_should_compress_unsupported_type() {
    let config = Config::default();
    assert!(!should_compress("image/svg+xml", 5000, false, &config));
}

#[test]
fn test_should_compress_transparent() {
    let config = Config::default();
    assert!(should_compress("image/png", 50000, true, &config));
    // 5000 bytes are above the general floor of 2048, which is all that is
    // asked of a request with transparency in mind.
    assert!(should_compress("image/png", 5000, true, &config));
}

#[test]
fn should_compress_limits_are_inclusive() {
    let config = Config::default();
    assert!(should_compress("image/jpeg", 2048, false, &config));
    assert!(!should_compress("image/jpeg", 2047, false, &config));
    assert!(should_compress("image/jpeg", 5 * 1024 * 1024, false, &config));
    assert!(!should_compress("image/jpeg", 5 * 1024 * 1024 + 1, false, &config));
    assert!(should_compress("image/png", 102400, false, &config));
    assert!(!should_compress("image/png", 102399, false, &config));
    assert!(!should_compress("image/gif", 50000, false, &config));
    assert!(should_compress("image/gif", 50000, true, &config));
    assert!(!should_compress("image/png", 2047, true, &config));
    assert!(!should_compress("", 5000, false, &config));
}

#[test]
fn should_compress_ignores_the_case_of_the_type_but_not_of_its_ending() {
    let config = Config::default();
    assert!(should_compress("IMAGE/JPEG", 5000, false, &config));
    assert!(should_compress("Image/WebP", 5000, false, &config));
    // written in capitals the type does not end in "png"
    assert!(should_compress("IMAGE/PNG", 5000, false, &config));
    assert!(!should_compress("image/png", 5000, false, &config));
}

#[test]
fn supported_types() {
    for t in ["image/jpeg", "image/png", "image/gif", "image/webp", "image/bmp", "image/tiff", "IMAGE/TIFF"] {
        assert!(is_supported_image_type(t));
    }
    for t in ["image/svg+xml", "image/jpg", "text/html", "image/", "", "image/jpeg "] {
        assert!(!is_supported_image_type(t));
    }
}

#[test]
fn default_limits_of_the_decision() {
    let config = Config::default();
    assert_eq!(config.min_compress_length, 2048);
    assert_eq!(config.min_transparent_compress_length, 102400);
    assert_eq!(config.max_original_size, 5 * 1024 * 1024);
}
