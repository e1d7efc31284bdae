use geist_bootloader::filter::{
    filter_service_lines, filter_topic_lines, sanitize_services, sanitize_topics,
    service_line_excluded, topic_line_excluded,
};
use geist_bootloader::text::{join_lines, split_lines, trim_chars};

fn strings(v: &[&str]) -> Vec<String> {
    v.iter().map(|s| s.to_string()).collect()
}

#[test]
fn topic_filter_example_substring_not_suffix() {
    let input = strings(&["/foo/get_parameters", "/bar", "/bar/rosout"]);
    let out = filter_topic_lines(&input);
    assert_eq!(out, strings(&["/foo/get_parameters", "/bar"]));
}

#[test]
fn service_filter_example_suffix_match() {
    let input = strings(&["/foo/get_parameters", "/bar", "/bar/rosout"]);
    let out = filter_service_lines(&input);
    assert_eq!(out, strings(&["/bar", "/bar/rosout"]));
}

#[test]
fn service_filter_drops_each_reserved_suffix() {
    let input = strings(&[
        "/n/describe_parameters",
        "/keep_one",
        "/n/get_parameters",
        "/n/list_parameters",
        "/n/set_parameters",
        "/n/get_parameter_types",
        "/n/set_parameters_atomically",
        "/keep_two",
    ]);
    let out = filter_service_lines(&input);
    assert_eq!(out, strings(&["/keep_one", "/keep_two"]));
}

#[test]
fn service_filter_matches_suffix_only() {
    // The reserved names drop a line only at its end.
    let input = strings(&["/get_parameters/extra", "/a/get_parameters"]);
    let out = filter_service_lines(&input);
    assert_eq!(out, strings(&["/get_parameters/extra"]));
}

#[test]
fn service_filter_idempotent() {
    let input = strings(&["/a/set_parameters", "/b", "", "/c/list_parameters", "/d"]);
    let once = filter_service_lines(&input);
    let twice = filter_service_lines(&once);
    assert_eq!(once, twice);
}

#[test]
fn topic_filter_drops_each_reserved_substring() {
    let input = strings(&[
        "/x/client_count",
        "/keep",
        "/x/connected_clients/y",
        "/parameter_events",
        "/rosout_agg",
        "/also_kept",
    ]);
    let out = filter_topic_lines(&input);
    assert_eq!(out, strings(&["/keep", "/also_kept"]));
}

#[test]
fn topic_filter_idempotent() {
    let input = strings(&["/a/rosout/b", "/b", "", "/c/client_count", "/d"]);
    let once = filter_topic_lines(&input);
    let twice = filter_topic_lines(&once);
    assert_eq!(once, twice);
}

#[test]
fn line_predicates_match_policies() {
    assert!(service_line_excluded("/node/get_parameters"));
    assert!(!service_line_excluded("/node/get_parameters/x"));
    assert!(!service_line_excluded("/node/echo"));
    assert!(topic_line_excluded("/a/rosout"));
    assert!(topic_line_excluded("/rosout/b"));
    assert!(!topic_line_excluded("/a/b"));
}

#[test]
fn sanitize_services_keeps_trailing_empty_line() {
    let out = sanitize_services("/a/get_parameters\n/b\n");
    assert_eq!(out, "/b\n");
}

#[test]
fn sanitize_topics_end_to_end() {
    let out = sanitize_topics("/cmd_vel\n/parameter_events\n/rosout\n/scan\n");
    assert_eq!(out, "/cmd_vel\n/scan\n");
}

#[test]
fn sanitize_preserves_order_without_dedup() {
    let out = sanitize_topics("/a\n/a\n/b\n/a");
    assert_eq!(out, "/a\n/a\n/b\n/a");
}

#[test]
fn split_lines_variants() {
    assert_eq!(split_lines(""), strings(&[""]));
    assert_eq!(split_lines("a"), strings(&["a"]));
    assert_eq!(split_lines("a\nb"), strings(&["a", "b"]));
    assert_eq!(split_lines("a\n"), strings(&["a", ""]));
    assert_eq!(split_lines("\n\n"), strings(&["", "", ""]));
}

#[test]
fn join_lines_variants() {
    assert_eq!(join_lines(&strings(&[])), "");
    assert_eq!(join_lines(&strings(&["a"])), "a");
    assert_eq!(join_lines(&strings(&["a", "", "b"])), "a\n\nb");
}

#[test]
fn split_then_join_restores_text() {
    let raw = "/one\n/two\n\n/three\n";
    assert_eq!(join_lines(&split_lines(raw)), raw);
}

#[test]
fn trim_chars_strips_surrounding_whitespace() {
    assert_eq!(trim_chars("  july5613/geist:latest \n"), "july5613/geist:latest");
    assert_eq!(trim_chars("\t\r\n "), "");
    assert_eq!(trim_chars("a b"), "a b");
}
