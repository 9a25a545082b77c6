use blackhole::config::{
    layout_supported, parse_u32, resolve_config, Config, ConfigError, PixelLayout,
};

#[test]
fn parses_plain_decimals() {
    assert_eq!(parse_u32(b"1600"), Some(1600));
    assert_eq!(parse_u32(b"0"), Some(0));
    assert_eq!(parse_u32(b"00042"), Some(42));
    assert_eq!(parse_u32(b"4294967295"), Some(4294967295));
}

#[test]
fn rejects_what_is_not_a_decimal() {
    assert_eq!(parse_u32(b""), None);
    assert_eq!(parse_u32(b"12a"), None);
    assert_eq!(parse_u32(b"-3"), None);
    assert_eq!(parse_u32(b" 7"), None);
    assert_eq!(parse_u32(b"4294967296"), None);
    assert_eq!(parse_u32(b"99999999999999999999"), None);
}

#[test]
fn missing_flags_fall_back_to_defaults() {
    let c = resolve_config(None, None, None, false).unwrap();
    assert_eq!(
        c,
        Config { width: 1600, height: 1200, aa: 4, fps: false }
    );
}

#[test]
fn supplied_flags_override_defaults() {
    let c = resolve_config(Some(b"800"), Some(b"600"), Some(b"2"), true).unwrap();
    assert_eq!(c, Config { width: 800, height: 600, aa: 2, fps: true });
}

#[test]
fn each_bad_flag_names_its_error() {
    assert_eq!(
        resolve_config(Some(b"abc"), None, None, false).err().unwrap(),
        ConfigError::BadWidth
    );
    assert_eq!(
        resolve_config(None, Some(b"0"), None, false).err().unwrap(),
        ConfigError::BadHeight
    );
    assert_eq!(
        resolve_config(None, None, Some(b"300"), false).err().unwrap(),
        ConfigError::BadAntialias
    );
    // The first unusable flag wins.
    assert_eq!(
        resolve_config(Some(b"x"), Some(b"y"), None, false).err().unwrap(),
        ConfigError::BadWidth
    );
}

#[test]
fn only_the_two_32_bit_layouts_are_supported() {
    assert!(layout_supported(PixelLayout::Argb8888));
    assert!(layout_supported(PixelLayout::Rgb888));
    assert!(!layout_supported(PixelLayout::Other));
}
