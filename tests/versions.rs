use openclawini::text::{normalize_version, parse_u64, trimmed};
use openclawini::version::{
    is_node_runtime_acceptable, is_stable_node_version, parse_version_from_output,
    parse_version_parts, parse_version_token, strip_ansi_sequences, version_is_newer,
};

#[test]
fn normalize_version_trims_v_prefix() {
    assert_eq!(normalize_version("v22.16.0\n"), "22.16.0");
}

#[test]
fn normalize_version_strips_every_leading_v() {
    assert_eq!(normalize_version("  vv1.0 "), "1.0");
    assert_eq!(normalize_version(""), "");
}

#[test]
fn version_comparison_detects_newer_release() {
    assert!(version_is_newer("1.2.3", "1.3.0"));
    assert!(!version_is_newer("2.0.0", "1.9.9"));
}

#[test]
fn version_comparison_of_equal_versions_is_false() {
    assert!(!version_is_newer("1.2.0", "1.2.0"));
    assert!(!version_is_newer("1.2", "1.2.0"));
    assert!(version_is_newer("1.2", "1.2.1"));
    assert!(version_is_newer("1.9", "1.10"));
}

#[test]
fn parse_version_parts_reads_leading_digits() {
    assert_eq!(parse_version_parts(" 1.2.3 "), vec![1, 2, 3]);
    assert_eq!(parse_version_parts("1.x.3rc"), vec![1, 3]);
    assert_eq!(parse_version_parts(""), Vec::<u64>::new());
    assert_eq!(parse_version_parts("99999999999999999999.1"), vec![1]);
}

#[test]
fn parse_version_handles_plain_and_prefixed_values() {
    assert_eq!(parse_version_from_output("2026.2.1"), Some("2026.2.1".to_string()));
    assert_eq!(parse_version_from_output("v2026.2.1"), Some("2026.2.1".to_string()));
    assert_eq!(
        parse_version_from_output("OpenClaw 2026.2.1 (build)"),
        Some("2026.2.1".to_string())
    );
    assert_eq!(
        parse_version_from_output(
            "\u{1b}[32mOpenClaw\u{1b}[0m version: \u{1b}[1m2026.2.1\u{1b}[0m"
        ),
        Some("2026.2.1".to_string())
    );
}

#[test]
fn parse_version_from_output_without_version_is_none() {
    assert_eq!(parse_version_from_output("no version here"), None);
    assert_eq!(parse_version_from_output(""), None);
    assert_eq!(parse_version_from_output("1234"), None);
}

#[test]
fn parse_version_token_trims_punctuation() {
    assert_eq!(parse_version_token("(v1.2.3),"), Some("1.2.3".to_string()));
    assert_eq!(parse_version_token("1.2.3-beta"), None);
}

#[test]
fn strip_ansi_sequences_removes_escapes() {
    let out: String = strip_ansi_sequences("\u{1b}[1;32mok\u{1b}[0m!").into_iter().collect();
    assert_eq!(out, "ok!");
    let out: String = strip_ansi_sequences("a\u{1b}Xb").into_iter().collect();
    assert_eq!(out, "ab");
}

#[test]
fn node_runtime_acceptance_checks_major_version() {
    assert!(is_node_runtime_acceptable("22.16.0"));
    assert!(is_node_runtime_acceptable("25.6.0"));
    assert!(!is_node_runtime_acceptable("21.9.0"));
}

#[test]
fn node_runtime_acceptance_normalizes_first() {
    assert!(is_node_runtime_acceptable("v22.0.0\n"));
    assert!(!is_node_runtime_acceptable("node"));
}

#[test]
fn stable_version_filter_rejects_prerelease_and_old_versions() {
    assert!(is_stable_node_version("25.6.0"));
    assert!(is_stable_node_version("22.16.0"));
    assert!(!is_stable_node_version("21.9.0"));
    assert!(!is_stable_node_version("26.0.0-rc.1"));
}

#[test]
fn stable_version_needs_three_numeric_parts() {
    assert!(!is_stable_node_version("22.1"));
    assert!(!is_stable_node_version("22.x.0"));
    assert!(is_stable_node_version("22.1.0.5"));
}

#[test]
fn parse_u64_matches_std() {
    let cases = ["0", "42", "+7", "+", "", "-1", "18446744073709551615", "18446744073709551616", "1a"];
    for c in cases {
        let chars: Vec<char> = c.chars().collect();
        assert_eq!(parse_u64(&chars), c.parse::<u64>().ok(), "input {c:?}");
    }
}

#[test]
fn trimmed_matches_std() {
    for c in ["  a b \t", "\u{3000}x\u{85}", "", "   "] {
        assert_eq!(trimmed(c), c.trim());
    }
}
