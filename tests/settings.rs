use rustify_wled::application::{plan_start, StartResponses, TokenStatus};
use rustify_wled::image::{cache_file_path, get_cache_path, get_image_pixels, precache_image, ImageError};
use rustify_wled::settings::{Animation, App, Settings, SettingsError, Spotify, Target};

fn settings(polling_seconds: u64, sizes: &[(u8, u8)], target_fps: u8) -> Settings {
    Settings {
        targets: sizes.iter().map(|s| Target { host: "localhost".to_string(), size: *s }).collect(),
        spotify: Spotify { polling_seconds, precache_albums: None },
        app: App { callback_url: "localhost".to_string(), client_id: None, client_secret: None, idle_image_url: None },
        animation: Animation { target_fps },
    }
}

#[test]
fn valid_settings_pass() {
    let s = Settings::verify_settings(settings(3, &[(32, 32), (1, 0)], 30)).unwrap();
    assert_eq!(s.targets.len(), 2);
    assert_eq!(s.animation.target_fps, 30);
}

#[test]
fn each_rule_has_its_error() {
    assert_eq!(Settings::verify_settings(settings(0, &[(1, 1)], 30)).unwrap_err(), SettingsError::PollingSecondsNotPositive);
    assert_eq!(Settings::verify_settings(settings(1, &[], 30)).unwrap_err(), SettingsError::NoTargets);
    assert_eq!(Settings::verify_settings(settings(1, &[(1, 1)], 0)).unwrap_err(), SettingsError::TargetFpsNotPositive);
    assert_eq!(
        Settings::verify_settings(settings(1, &[(4, 4), (0, 3), (0, 1)], 30)).unwrap_err(),
        SettingsError::InvalidTargetSize(1)
    );
}

#[test]
fn missing_cover_gives_a_black_image() {
    assert_eq!(get_image_pixels(None, &2, &3).unwrap(), vec![0; 18]);
    assert!(get_image_pixels(None, &0, &5).unwrap().is_empty());
}

#[test]
fn cover_pixels_are_flattened_in_rgb_order() {
    let px = vec![(1, 2, 3), (4, 5, 6)];
    assert_eq!(get_image_pixels(Some(px.clone()), &2, &1).unwrap(), vec![1, 2, 3, 4, 5, 6]);
    assert_eq!(get_image_pixels(Some(px), &2, &2).unwrap_err(), ImageError::SizeMismatch);
}

#[test]
fn cache_path_is_keyed_by_the_md5_of_the_url() {
    assert_eq!(get_cache_path("", true), "/tmp/rustify-wled/d41d8cd98f00b204e9800998ecf8427e.png");
    assert_eq!(get_cache_path("abc", true), "/tmp/rustify-wled/900150983cd24fb0d6963f7d28e17f72.png");
    assert_eq!(get_cache_path("abc", false), "/tmp/rustify-wled");
}

#[test]
fn precaching_skips_cached_images() {
    assert_eq!(precache_image("abc", true), None);
    assert_eq!(precache_image("abc", false), Some(get_cache_path("abc", true)));
}

#[test]
fn start_depends_on_the_token() {
    let valid = plan_start(TokenStatus::Valid, "http://auth".to_string());
    assert!(valid.start_polling && !valid.refresh_token);
    assert!(matches!(valid.response, StartResponses::String(s) if s == "start!"));
    let expired = plan_start(TokenStatus::Expired, "http://auth".to_string());
    assert!(expired.start_polling && expired.refresh_token);
    assert!(matches!(expired.response, StartResponses::String(s) if s == "started with refreshed token!"));
    let missing = plan_start(TokenStatus::Missing, "http://auth".to_string());
    assert!(!missing.start_polling && !missing.refresh_token);
    assert!(matches!(missing.response, StartResponses::Redirect(u) if u == "http://auth"));
}

#[test]
fn cache_file_is_named_by_its_key() {
    assert_eq!(cache_file_path("k"), "/tmp/rustify-wled/k.png");
}
