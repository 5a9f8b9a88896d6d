use sundaystudio::account::AccountStatus;
use sundaystudio::ai::reply::{check_http_status, extract_json_object};
use sundaystudio::ai::shownotes::{
    check_transcript, clean_strings, clip_transcript, clock_text, MAX_TRANSCRIPT_CHARS,
};
use sundaystudio::commands::export::sanitize_stem;
use sundaystudio::error::AppError;
use sundaystudio::project::scast::{check_format_version, check_project_name};
use sundaystudio::services::deeplink::{
    has_parent_dir_component, is_absolute_path, validate_import_path,
};
use sundaystudio::text::trim;

// ── account ─────────────────────────────────────────────────────────────────

#[test]
fn signed_out_status_is_empty() {
    let s = AccountStatus::signed_out();
    assert!(!s.signed_in);
    assert!(s.church_ids.is_empty());
    assert!(!s.claims_fresh);
}

// ── show notes and the AI reply ─────────────────────────────────────────────

#[test]
fn long_transcript_is_truncated_not_rejected() {
    let big = "word ".repeat(MAX_TRANSCRIPT_CHARS); // way over the cap
    let clipped = clip_transcript(&big);
    assert!(clipped.chars().count() <= MAX_TRANSCRIPT_CHARS + 64);
    assert!(clipped.contains("[transcript truncated for length]"));
    // A short transcript passes through untouched.
    assert_eq!(clip_transcript("short"), "short");
}

#[test]
fn clip_keeps_exactly_the_cap_then_marks_the_cut() {
    let exact = "é".repeat(MAX_TRANSCRIPT_CHARS);
    assert_eq!(clip_transcript(&exact), exact);
    let over = "é".repeat(MAX_TRANSCRIPT_CHARS + 1);
    let clipped = clip_transcript(&over);
    assert_eq!(
        clipped,
        "é".repeat(MAX_TRANSCRIPT_CHARS) + "\n\n[transcript truncated for length]"
    );
}

#[test]
fn blank_transcripts_are_refused() {
    assert!(check_transcript("   \n\t").is_err());
    assert_eq!(
        check_transcript("").unwrap_err(),
        "no transcript to summarise — import captions or paste a transcript"
    );
    assert!(check_transcript("  hello ").is_ok());
}

#[test]
fn clean_strings_trims_drops_blanks_and_caps() {
    let items = vec![
        "  A  ".to_string(),
        "   ".to_string(),
        "B".to_string(),
        "".to_string(),
        " C".to_string(),
    ];
    assert_eq!(clean_strings(items.clone(), 2), vec!["A", "B"]);
    assert_eq!(clean_strings(items, 10), vec!["A", "B", "C"]);
    assert!(clean_strings(vec!["x".to_string()], 0).is_empty());
}

#[test]
fn json_object_is_cut_out_of_prose_and_fences() {
    let wrapped = "Sure! Here it is:\n```json\n{\"a\": {\"b\": 1}}\n```\nThanks";
    assert_eq!(extract_json_object(wrapped).unwrap(), "{\"a\": {\"b\": 1}}");
    assert_eq!(extract_json_object("{}").unwrap(), "{}");
    assert!(extract_json_object("no json here").is_none());
    assert!(extract_json_object("} backwards {").is_none());
}

#[test]
fn http_status_outside_2xx_names_the_status() {
    assert!(check_http_status(200, "").is_ok());
    assert!(check_http_status(204, "").is_ok());
    let err = check_http_status(401, r#"{"error":{"message":"invalid x-api-key"}}"#).unwrap_err();
    assert_eq!(
        err,
        r#"Anthropic API returned HTTP 401: {"error":{"message":"invalid x-api-key"}}"#
    );
    assert!(check_http_status(199, "x").unwrap_err().contains("199"));
    assert!(check_http_status(300, "x").is_err());
}

// ── export file names ───────────────────────────────────────────────────────

#[test]
fn sanitize_stem_keeps_safe_chars_and_falls_back() {
    assert_eq!(sanitize_stem("Sunday Morning"), "Sunday Morning");
    assert_eq!(sanitize_stem("Ep 12: Q&A / part 1"), "Ep 12_ Q_A _ part 1");
    assert_eq!(sanitize_stem("   "), "export"); // all whitespace → fallback
    assert_eq!(sanitize_stem("///"), "___"); // non-empty after substitution
}

#[test]
fn sanitize_stem_trims_and_keeps_letters_beyond_ascii() {
    assert_eq!(sanitize_stem("  Gudstjeneste på søndag  "), "Gudstjeneste på søndag");
    assert_eq!(sanitize_stem("a.b-c_d"), "a_b-c_d");
    assert_eq!(sanitize_stem(""), "export");
}

// ── project folder rules ────────────────────────────────────────────────────

#[test]
fn newer_manifest_formats_are_refused() {
    assert!(check_format_version(0).is_ok());
    assert!(check_format_version(1).is_ok());
    match check_format_version(2) {
        Err(AppError::Validation(m)) => {
            assert_eq!(m, "project format 2 is newer than this app supports")
        }
        other => panic!("expected a validation error, got {other:?}"),
    }
    assert!(check_format_version(99).is_err());
}

#[test]
fn project_names_are_trimmed_and_must_not_be_blank() {
    assert_eq!(check_project_name("  My Podcast ").unwrap(), "My Podcast");
    let err = check_project_name(" \t ").unwrap_err();
    assert_eq!(err.code(), "validation");
}

#[test]
fn trim_strips_unicode_whitespace_on_both_ends() {
    assert_eq!(trim("\u{3000} a b \n"), "a b");
    assert_eq!(trim("   "), "");
}

// ── deep-link import paths ──────────────────────────────────────────────────

#[test]
fn rejects_traversal_and_relative_paths() {
    for bad in [
        "../../../../etc/passwd",
        "/Users/ola/../../../etc/passwd",
        "relative/take.wav",
        "take.wav",
        "C:\\Users\\..\\secret.wav",
    ] {
        assert!(
            validate_import_path(bad).is_err(),
            "traversal/relative path must be rejected: {bad}"
        );
    }
}

#[test]
fn accepts_clean_absolute_paths() {
    assert!(validate_import_path("/Users/ola/sermon.wav").is_ok());
    assert!(validate_import_path("C:\\Users\\Ola\\take.wav").is_ok());
    assert!(validate_import_path("/Users/ola/..hidden/take.wav").is_ok());
}

#[test]
fn import_path_errors_quote_the_path() {
    match validate_import_path("take.wav") {
        Err(AppError::Validation(m)) => {
            assert_eq!(m, "deep-link import path must be absolute: \"take.wav\"")
        }
        other => panic!("unexpected {other:?}"),
    }
    match validate_import_path("/a/../b") {
        Err(AppError::Validation(m)) => {
            assert_eq!(m, "deep-link import path must not contain '..': \"/a/../b\"")
        }
        other => panic!("unexpected {other:?}"),
    }
}

#[test]
fn path_predicates_cover_both_separators() {
    assert!(is_absolute_path("/x"));
    assert!(is_absolute_path("\\\\server\\share"));
    assert!(is_absolute_path("D:/x"));
    assert!(!is_absolute_path("D:"));
    assert!(!is_absolute_path("x/y"));
    assert!(has_parent_dir_component(".."));
    assert!(has_parent_dir_component("a\\..\\b"));
    assert!(has_parent_dir_component("a/.."));
    assert!(!has_parent_dir_component("a/...b/c"));
}

// ── error codes ─────────────────────────────────────────────────────────────

#[test]
fn error_codes_are_stable() {
    assert_eq!(
        AppError::NotFound {
            entity: "project",
            id: "x".into()
        }
        .code(),
        "not_found"
    );
    assert_eq!(AppError::Validation("v".into()).code(), "validation");
    assert_eq!(AppError::Audio("a".into()).code(), "audio");
    assert_eq!(AppError::Database("d".into()).code(), "database");
    assert_eq!(AppError::Internal("i".into()).code(), "internal");
    let io = std::io::Error::new(std::io::ErrorKind::Other, "disk");
    assert_eq!(AppError::Io(io).code(), "io");
}

#[test]
fn clock_text_formats_hours_minutes_seconds() {
    assert_eq!(clock_text(0), "0:00");
    assert_eq!(clock_text(65), "1:05");
    assert_eq!(clock_text(3661), "1:01:01");
    assert_eq!(clock_text(36_000), "10:00:00");
}

#[test]
fn trim_removes_exactly_unicode_white_space() {
    assert_eq!(trim("\u{3000}\u{a0}\t x y \u{2029}\u{85}"), "x y");
    assert_eq!(trim("\u{200b}x\u{200b}"), "\u{200b}x\u{200b}");
    for c in ['\u{9}', '\u{d}', ' ', '\u{1680}', '\u{2000}', '\u{200a}', '\u{2028}', '\u{202f}', '\u{205f}'] {
        assert_eq!(trim(&format!("{c}a{c}")), "a");
        assert!(c.is_whitespace());
    }
}
