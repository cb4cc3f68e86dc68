//! The typed option codec: round trips, omitted keys, tolerated unknown
//! keys, and each decode error on an input that provokes it.

use libportal::errors::DecodeError;
use libportal::screenshot::ScreenshotOptions;
use libportal::value::{Value, VariantMap};
use libportal::wallpaper::{SetOn, WallpaperOptions, WallpaperOptionsBuilder};

#[test]
fn wallpaper_round_trip_with_subset_of_keys() {
    let options = WallpaperOptions { show_preview: Some(true), set_on: None };
    let decoded = WallpaperOptions::decode(&options.encode()).unwrap();
    assert_eq!(decoded, options);

    let options = WallpaperOptions { show_preview: None, set_on: Some(SetOn::Lockscreen) };
    let decoded = WallpaperOptions::decode(&options.encode()).unwrap();
    assert_eq!(decoded, options);

    let options = WallpaperOptions { show_preview: Some(false), set_on: Some(SetOn::Both) };
    let decoded = WallpaperOptions::decode(&options.encode()).unwrap();
    assert_eq!(decoded, options);
}

#[test]
fn wallpaper_encode_omits_absent_keys() {
    let options = WallpaperOptions { show_preview: None, set_on: None };
    let encoded = options.encode();
    assert_eq!(encoded.len(), 0);
    let decoded = WallpaperOptions::decode(&encoded).unwrap();
    assert_eq!(decoded, options);
}

#[test]
fn wallpaper_encode_uses_canonical_lowercase_tags() {
    assert_eq!(SetOn::Lockscreen.as_tag(), "lockscreen");
    assert_eq!(SetOn::Background.as_tag(), "background");
    assert_eq!(SetOn::Both.as_tag(), "both");

    let encoded = WallpaperOptions { show_preview: None, set_on: Some(SetOn::Background) }
        .encode();
    assert_eq!(encoded.get("set-on"), Some(&Value::Str("background".to_string())));
}

#[test]
fn set_on_tag_round_trip() {
    for set_on in [SetOn::Lockscreen, SetOn::Background, SetOn::Both] {
        assert_eq!(SetOn::from_tag(set_on.as_tag()), Ok(set_on));
    }
}

#[test]
fn unknown_tag_is_an_unknown_variant() {
    assert_eq!(SetOn::from_tag("ceiling"), Err(DecodeError::UnknownVariant));

    let mut m = VariantMap::new();
    m.insert("set-on", Value::Str("ceiling".to_string()));
    assert_eq!(WallpaperOptions::decode(&m), Err(DecodeError::UnknownVariant));
}

#[test]
fn wrong_value_type_is_an_unexpected_type() {
    let mut m = VariantMap::new();
    m.insert("show-preview", Value::Str("yes".to_string()));
    assert_eq!(WallpaperOptions::decode(&m), Err(DecodeError::UnexpectedType));

    let mut m = VariantMap::new();
    m.insert("set-on", Value::Bool(true));
    assert_eq!(WallpaperOptions::decode(&m), Err(DecodeError::UnexpectedType));
}

#[test]
fn decode_tolerates_unknown_keys() {
    let mut m = VariantMap::new();
    m.insert("some-future-option", Value::U32(3));
    m.insert("show-preview", Value::Bool(true));
    let decoded = WallpaperOptions::decode(&m).unwrap();
    assert_eq!(decoded, WallpaperOptions { show_preview: Some(true), set_on: None });
}

#[test]
fn builder_starts_empty_and_keeps_what_was_set() {
    let built = WallpaperOptionsBuilder::default().build();
    assert_eq!(built, WallpaperOptions { show_preview: None, set_on: None });

    let built = WallpaperOptionsBuilder::default()
        .show_preview(true)
        .set_on(SetOn::Both)
        .build();
    assert_eq!(built, WallpaperOptions { show_preview: Some(true), set_on: Some(SetOn::Both) });
}

#[test]
fn screenshot_round_trip() {
    for interactive in [false, true] {
        for modal in [false, true] {
            let options = ScreenshotOptions { interactive, modal };
            let decoded = ScreenshotOptions::decode(&options.encode()).unwrap();
            assert_eq!(decoded, options);
        }
    }
}

#[test]
fn screenshot_options_require_both_keys() {
    let m = VariantMap::new();
    assert_eq!(ScreenshotOptions::decode(&m), Err(DecodeError::MissingField));

    let mut m = VariantMap::new();
    m.insert("interactive", Value::Bool(true));
    assert_eq!(ScreenshotOptions::decode(&m), Err(DecodeError::MissingField));

    let mut m = VariantMap::new();
    m.insert("interactive", Value::U32(1));
    m.insert("modal", Value::Bool(false));
    assert_eq!(ScreenshotOptions::decode(&m), Err(DecodeError::UnexpectedType));
}

#[test]
fn first_entry_wins_on_duplicate_keys() {
    let mut m = VariantMap::new();
    m.insert("show-preview", Value::Bool(true));
    m.insert("show-preview", Value::Bool(false));
    assert_eq!(m.get("show-preview"), Some(&Value::Bool(true)));
}
