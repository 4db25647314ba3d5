use fhc::output::{code_in_list, render_line, should_print};
use fhc::structs::{HttpData, LibOptions};

fn result_404() -> HttpData {
    let mut d = HttpData::new("example.com".to_string());
    d.status_code = 404;
    d.final_url = "https://example.com/".to_string();
    d.protocol = "https".to_string();
    d
}

fn options(filter: Option<&str>, exclude: Option<&str>) -> LibOptions {
    LibOptions {
        filter_codes: filter.map(|s| s.to_string()),
        exclude_codes: exclude.map(|s| s.to_string()),
        ..Default::default()
    }
}

#[test]
fn status_passes_empty_policy() {
    assert!(should_print(&result_404(), &options(None, None)));
    assert!(should_print(&result_404(), &options(Some(""), Some(""))));
}

#[test]
fn status_passes_when_filter_names_it() {
    assert!(should_print(&result_404(), &options(Some("404"), None)));
    assert!(should_print(&result_404(), &options(Some("200,404"), None)));
}

#[test]
fn status_suppressed_when_excluded() {
    assert!(!should_print(&result_404(), &options(None, Some("404"))));
    assert!(!should_print(&result_404(), &options(Some("404"), Some("404"))));
}

#[test]
fn status_suppressed_when_filter_names_others() {
    assert!(!should_print(&result_404(), &options(Some("200,301"), None)));
}

#[test]
fn codes_match_as_whole_pieces_not_substrings() {
    // "40" names the status 40, not a prefix of 404.
    assert!(!should_print(&result_404(), &options(Some("40"), None)));
    assert!(!code_in_list("40,44", 404));
    assert!(code_in_list("404", 404));
    assert!(!code_in_list("4040", 404));
}

#[test]
fn quiet_and_unreached_hosts_are_suppressed() {
    let mut opts = options(None, None);
    opts.quiet_flag = true;
    assert!(!should_print(&result_404(), &opts));

    let unreached = HttpData::new("example.com".to_string());
    assert!(!should_print(&unreached, &options(None, None)));
}

#[test]
fn line_rendering() {
    let d = result_404();
    assert_eq!(render_line(&d, true), "example.com,[https://example.com/],[404]");
    assert_eq!(render_line(&d, false), "https://example.com");
}
