use crates_cli::args::{
    extended_usage_message, parse_args, usage_message, ArgOutcome, Field,
};
use crates_cli::client::{crate_url, user_agent};
use crates_cli::format::{
    no_crate_message, option_text, render_lookup, render_report, report_line, select_field,
};
use crates_cli::record::PackageRecord;
use crates_cli::text::{join_with, pad_to, scrub_newlines, str_eq};

fn sample_record() -> PackageRecord {
    PackageRecord {
        name: String::from("foo"),
        description: String::from("A tool"),
        keywords: vec![String::from("cli"), String::from("web")],
        max_stable_version: String::from("1.0.0"),
        max_version: String::from("1.2.3"),
        homepage: None,
        repository: Some(String::from("https://example.com/foo")),
        documentation: None,
    }
}

fn args_of(parts: &[&str]) -> Vec<String> {
    parts.iter().map(|s| s.to_string()).collect()
}

#[test]
fn missing_id_is_benign_usage_error() {
    let r = parse_args(&args_of(&[]));
    assert!(matches!(r, ArgOutcome::MissingId));
    assert_eq!(r.exit_code(), 0);
    assert_eq!(usage_message(), "Invalid arguments! Usage: crates <id>");
}

#[test]
fn unrecognized_flag_is_fatal_usage_error() {
    let r = parse_args(&args_of(&["foo", "--nope"]));
    assert!(matches!(r, ArgOutcome::InvalidFlag));
    assert_eq!(r.exit_code(), 1);
    assert_eq!(
        extended_usage_message(),
        "Invalid arguments! Usage: crates <id> [--latest, --stable, --homepage, --repo, --doc]"
    );
}

#[test]
fn lone_id_requests_the_full_report() {
    let r = parse_args(&args_of(&["serde"]));
    match &r {
        ArgOutcome::Lookup { id, field } => {
            assert_eq!(id, "serde");
            assert!(field.is_none());
        }
        _ => panic!("expected a lookup"),
    }
    assert_eq!(r.exit_code(), 0);
}

#[test]
fn each_flag_selects_its_field() {
    let table = [
        ("--latest", Field::Latest),
        ("--stable", Field::Stable),
        ("--homepage", Field::Homepage),
        ("--repo", Field::Repository),
        ("--doc", Field::Documentation),
    ];
    for (flag, want) in table {
        match parse_args(&args_of(&["foo", flag])) {
            ArgOutcome::Lookup { id, field } => {
                assert_eq!(id, "foo");
                assert_eq!(field, Some(want));
            }
            _ => panic!("expected a lookup for {flag}"),
        }
    }
}

#[test]
fn extra_arguments_are_ignored() {
    match parse_args(&args_of(&["foo", "--latest", "bar"])) {
        ArgOutcome::Lookup { id, field } => {
            assert_eq!(id, "foo");
            assert_eq!(field, Some(Field::Latest));
        }
        _ => panic!("expected a lookup"),
    }
}

#[test]
fn selection_is_raw_with_placeholder_for_absent() {
    let rec = sample_record();
    assert_eq!(select_field(&rec, Field::Latest), "1.2.3");
    assert_eq!(select_field(&rec, Field::Stable), "1.0.0");
    assert_eq!(select_field(&rec, Field::Homepage), "- - -");
    assert_eq!(select_field(&rec, Field::Repository), "https://example.com/foo");
    assert_eq!(select_field(&rec, Field::Documentation), "- - -");
}

#[test]
fn latest_flag_prints_version_verbatim() {
    let target = Some(sample_record());
    let out = render_lookup(&target, Some(Field::Latest), "foo");
    assert_eq!(out, "1.2.3");
}

#[test]
fn no_match_message_names_the_identifier() {
    let target: Option<PackageRecord> = None;
    assert_eq!(render_lookup(&target, None, "foo"), "No crate found for 'foo'!");
    assert_eq!(render_lookup(&target, Some(Field::Latest), "foo"), "No crate found for 'foo'!");
    assert_eq!(no_crate_message("bar-baz"), "No crate found for 'bar-baz'!");
}

#[test]
fn full_report_is_byte_exact() {
    let rec = sample_record();
    let labels_and_values = [
        ("Name:", String::from("foo")),
        ("Description:", String::from("A tool")),
        ("Keywords:", String::from("cli, web")),
        ("Stable Version:", String::from("1.0.0")),
        ("Latest Version:", String::from("1.2.3")),
        ("Homepage:", String::from("- - -")),
        ("Repository:", String::from("https://example.com/foo")),
        ("Documentation:", String::from("- - -")),
    ];
    let expected = labels_and_values
        .iter()
        .map(|(label, value)| format!("{: <15} {: <65}", label, value))
        .collect::<Vec<_>>()
        .join("\n");
    assert_eq!(render_report(&rec), expected);
}

#[test]
fn report_rendering_is_deterministic() {
    let first = render_report(&sample_record());
    let second = render_report(&sample_record());
    assert_eq!(first, second);
    let lines: Vec<&str> = first.split('\n').collect();
    assert_eq!(lines.len(), 8);
    for line in &lines {
        assert_eq!(line.chars().count(), 81);
        assert_eq!(line.chars().nth(15), Some(' '));
    }
}

#[test]
fn long_values_are_not_truncated() {
    let mut rec = sample_record();
    rec.description = "x".repeat(70);
    let report = render_report(&rec);
    let lines: Vec<&str> = report.split('\n').collect();
    assert_eq!(lines[1], format!("Description:    {}", "x".repeat(70)));
    assert_eq!(lines[1].chars().count(), 16 + 70);
}

#[test]
fn padding_counts_characters_not_bytes() {
    let mut rec = sample_record();
    rec.name = String::from("caf\u{e9}");
    let report = render_report(&rec);
    let lines: Vec<&str> = report.split('\n').collect();
    assert_eq!(lines[0].chars().count(), 81);
    assert_eq!(lines[0], format!("Name:           caf\u{e9}{}", " ".repeat(61)));
}

#[test]
fn newlines_become_single_spaces_before_padding() {
    assert_eq!(scrub_newlines("a\nb"), "a b");
    assert_eq!(scrub_newlines("\n\n"), "  ");
    assert_eq!(scrub_newlines("plain"), "plain");
    let mut rec = sample_record();
    rec.description = String::from("two\nlines");
    let report = render_report(&rec);
    let lines: Vec<&str> = report.split('\n').collect();
    assert_eq!(lines.len(), 8);
    assert_eq!(lines[1], format!("Description:    two lines{}", " ".repeat(56)));
}

#[test]
fn absent_homepage_renders_placeholder_line() {
    let rec = sample_record();
    let report = render_report(&rec);
    let lines: Vec<&str> = report.split('\n').collect();
    assert_eq!(lines[5], format!("Homepage:       - - -{}", " ".repeat(60)));
}

#[test]
fn report_line_pads_both_columns() {
    assert_eq!(report_line("Name:", "foo"), format!("Name:           foo{}", " ".repeat(62)));
    assert_eq!(report_line("Name:", &"y".repeat(65)), format!("Name:           {}", "y".repeat(65)));
}

#[test]
fn option_text_uses_placeholder() {
    assert_eq!(option_text(&Some(String::from("v"))), "v");
    assert_eq!(option_text(&None), "- - -");
}

#[test]
fn url_interpolates_identifier_unescaped() {
    assert_eq!(crate_url("serde"), "https://crates.io/api/v1/crates/serde");
    assert_eq!(crate_url("a b"), "https://crates.io/api/v1/crates/a b");
    assert_eq!(user_agent(), "crates (github.com/typable/crates)");
}

#[test]
fn keywords_join_with_comma_and_space() {
    let parts = vec![String::from("a"), String::from("b"), String::from("c")];
    assert_eq!(join_with(&parts, ", "), "a, b, c");
    assert_eq!(join_with(&vec![String::from("solo")], ", "), "solo");
    assert_eq!(join_with(&Vec::new(), ", "), "");
}

#[test]
fn padding_is_exact_and_never_truncates() {
    assert_eq!(pad_to(String::from("ab"), 5), "ab   ");
    assert_eq!(pad_to(String::from("abcdef"), 5), "abcdef");
    assert_eq!(pad_to(String::new(), 3), "   ");
}

#[test]
fn str_eq_compares_by_characters() {
    assert!(str_eq("--latest", "--latest"));
    assert!(!str_eq("--latest", "--stable"));
    assert!(!str_eq("a", "ab"));
    assert!(str_eq("", ""));
}
