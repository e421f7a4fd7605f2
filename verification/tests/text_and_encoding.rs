//! Tests for name derivation, the string utilities, log classification,
//! base64 encoding, and the telemetry-output scan.

use container_acquire::device::usage_token;
use container_acquire::encoding::encode_base64;
use container_acquire::logging::is_error_message;
use container_acquire::naming::derive_container_name;
use container_acquire::strutil::{contains_str, file_name_of, split_str, str_eq, u64_to_decimal};

#[test]
fn derive_name_replaces_separators_and_appends_suffix() {
    assert_eq!(derive_container_name("nginx:latest").as_str(), "nginx_latest_container");
    assert_eq!(
        derive_container_name("registry.io/team/app:2.1").as_str(),
        "registry.io_team_app_2.1_container"
    );
    assert_eq!(derive_container_name("").as_str(), "_container");
}

#[test]
fn derive_name_is_deterministic() {
    let a = derive_container_name("ubuntu:22.04");
    let b = derive_container_name("ubuntu:22.04");
    assert_eq!(a, b);
}

#[test]
fn derived_names_carry_no_separators() {
    for image in ["nginx:latest", "a/b/c:d", "::://", "plain"] {
        let name = derive_container_name(image);
        assert!(!name.contains(':'));
        assert!(!name.contains('/'));
    }
}

#[test]
fn string_equality_is_by_characters() {
    assert!(str_eq("abc", "abc"));
    assert!(!str_eq("abc", "abd"));
    assert!(!str_eq("abc", "ab"));
    assert!(str_eq("", ""));
}

#[test]
fn substring_search_finds_runs() {
    assert!(contains_str("docker daemon down", "daemon"));
    assert!(contains_str("abc", ""));
    assert!(!contains_str("abc", "abcd"));
    assert!(contains_str("aaab", "aab"));
}

#[test]
fn decimal_rendering_is_exact() {
    assert_eq!(u64_to_decimal(0).as_str(), "0");
    assert_eq!(u64_to_decimal(7).as_str(), "7");
    assert_eq!(u64_to_decimal(42).as_str(), "42");
    assert_eq!(u64_to_decimal(90210).as_str(), "90210");
    assert_eq!(u64_to_decimal(u64::MAX).as_str(), "18446744073709551615");
}

#[test]
fn split_keeps_empty_pieces() {
    let parts = split_str("a//b/", '/');
    let views: Vec<&str> = parts.iter().map(|s| s.as_str()).collect();
    assert_eq!(views, vec!["a", "", "b", ""]);
    let parts = split_str("", '/');
    let views: Vec<&str> = parts.iter().map(|s| s.as_str()).collect();
    assert_eq!(views, vec![""]);
}

#[test]
fn file_names_are_the_last_segment() {
    assert_eq!(file_name_of("/data/out/result.png").as_str(), "result.png");
    assert_eq!(file_name_of("result.png").as_str(), "result.png");
    assert_eq!(file_name_of("/data/out/").as_str(), "");
}

#[test]
fn log_classification_goes_through_lowercasing() {
    assert!(is_error_message("ERROR: disk full"));
    assert!(is_error_message("Download FAILED"));
    assert!(!is_error_message("all systems nominal"));
    // The Vietnamese marker, in its uppercase form, must be recognised too.
    assert!(is_error_message("L\u{1ed6}I nghi\u{ea}m tr\u{1ecd}ng"));
    assert!(is_error_message("l\u{1ed7}i nh\u{1ecf}"));
}

#[test]
fn base64_encoding_matches_known_values() {
    assert_eq!(encode_base64(&b"hello".to_vec()).unwrap().as_str(), "aGVsbG8=");
    assert_eq!(encode_base64(&b"".to_vec()).unwrap().as_str(), "");
    assert_eq!(encode_base64(&vec![0u8, 1, 2, 3]).unwrap().as_str(), "AAECAw==");
}

#[test]
fn usage_token_picks_second_token_of_marked_line() {
    let output = "header line\ngpu 37.5 busy\nother 1 2";
    assert_eq!(usage_token(output, "gpu").unwrap().as_str(), "37.5");
    let output = "Render/3D/0   12.0%  other";
    assert_eq!(usage_token(output, "Render/3D/0").unwrap().as_str(), "12.0%");
}

#[test]
fn usage_token_absent_when_no_line_matches() {
    assert!(usage_token("nothing here", "gpu").is_none());
    assert!(usage_token("gpu", "gpu").is_none());
}
