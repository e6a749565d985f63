use spotix::qt::detail::{cache_bucket_label, is_forbidden_playlist_error};
use spotix::qt::format::format_bytes;
use spotix::text::{decimal_string, strip_prefix, trim};

/// The float-based rendering that the cache view has always used.
fn float_format_bytes(bytes: u64) -> String {
    const UNITS: &[&str] = &["B", "KiB", "MiB", "GiB"];
    let mut size = bytes as f64;
    let mut unit = 0;
    while size >= 1024.0 && unit + 1 < UNITS.len() {
        size /= 1024.0;
        unit += 1;
    }
    if unit == 0 {
        format!("{bytes} {}", UNITS[unit])
    } else {
        format!("{size:.1} {}", UNITS[unit])
    }
}

#[test]
fn decimal_renders_like_display() {
    for n in [0u128, 7, 10, 99, 100, 12345, u64::MAX as u128, u128::MAX] {
        assert_eq!(decimal_string(n), n.to_string());
    }
}

#[test]
fn format_bytes_small_values() {
    assert_eq!(format_bytes(0), "0 B");
    assert_eq!(format_bytes(1023), "1023 B");
    assert_eq!(format_bytes(1024), "1.0 KiB");
    assert_eq!(format_bytes(1536), "1.5 KiB");
    assert_eq!(format_bytes(1280), "1.2 KiB");
    assert_eq!(format_bytes(5 * 1024 * 1024), "5.0 MiB");
    assert_eq!(format_bytes(3 * 1024 * 1024 * 1024), "3.0 GiB");
}

#[test]
fn format_bytes_matches_float_rendering() {
    let mut samples: Vec<u64> = Vec::new();
    for k in 0..4000u64 {
        samples.push(k);
        samples.push(1024 + k * 7);
        samples.push(1024 * 1024 + k * 52_429);
        samples.push((1u64 << 30) + k * 53_687_091);
        samples.push((1u64 << 30) * (k + 1) / 10);
    }
    for e in 50..64u32 {
        for d in 0..64u64 {
            samples.push((1u64 << e) + d);
            samples.push((1u64 << e) - d);
            samples.push((1u64 << e) + (d << (e - 50)));
        }
    }
    samples.push(u64::MAX);
    samples.push(u64::MAX - 1);
    for b in samples {
        assert_eq!(format_bytes(b), float_format_bytes(b), "bytes = {b}");
    }
}

#[test]
fn trim_cuts_unicode_white_space() {
    assert_eq!(trim("  hello \t\n"), "hello");
    assert_eq!(trim("\u{3000}\u{a0}x y\u{2029}"), "x y");
    assert_eq!(trim("   "), "");
    assert_eq!(trim(""), "");
    for s in [" a ", "\u{85}b\u{205f}", "no-space", "\u{200b}zero width\u{200b}"] {
        assert_eq!(trim(s), s.trim());
    }
}

#[test]
fn strip_prefix_like_std() {
    assert_eq!(strip_prefix("track:abc", "track:").as_deref(), Some("abc"));
    assert_eq!(strip_prefix("track:", "track:").as_deref(), Some(""));
    assert_eq!(strip_prefix("album:abc", "track:"), None);
    assert_eq!(strip_prefix("tr", "track:"), None);
}

#[test]
fn forbidden_errors_are_recognised() {
    assert!(is_forbidden_playlist_error("HTTP 403"));
    assert!(is_forbidden_playlist_error("Request FORBIDDEN by server"));
    assert!(is_forbidden_playlist_error("Forbidden"));
    assert!(!is_forbidden_playlist_error("404 not found"));
    assert!(!is_forbidden_playlist_error("forbid"));
    assert!(!is_forbidden_playlist_error(""));
}

#[test]
fn bucket_labels_name_known_buckets() {
    assert_eq!(cache_bucket_label("audio"), "audio (audio/content)");
    assert_eq!(cache_bucket_label("tracks"), "tracks (audio/content)");
    assert_eq!(cache_bucket_label("api"), "api (Spotify metadata)");
    assert_eq!(cache_bucket_label("covers"), "covers (artwork)");
    assert_eq!(cache_bucket_label("misc"), "misc");
}
