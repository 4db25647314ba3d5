use fhc::extract::{assign_response_data, return_title_and_body, truncate_body, ResponseParts};
use fhc::probe::{HostProbe, ProbeResponse};
use fhc::structs::HttpData;

fn parts(body: &str) -> ResponseParts {
    ResponseParts {
        content_type: "text/html".to_string(),
        content_length: None,
        headers: String::new(),
        body: body.to_string(),
        final_host: Some("example.com".to_string()),
    }
}

#[test]
fn full_probe_of_mock_https_response() {
    // One host, one attempt, a 200 over HTTPS with a small HTML page.
    let mut probe = HostProbe::new("example.com".to_string(), 1);
    probe.record_attempt(Some(ProbeResponse {
        protocol: "https".to_string(),
        status_code: 200,
        final_url: "https://example.com/".to_string(),
    }));
    let mut data = probe.into_result();
    let body = "<html><head><title>Hi</title></head><body>Hello world</body></html>";
    assign_response_data(&mut data, parts(body));

    assert_eq!(data.http_status, "ACTIVE");
    assert_eq!(data.status_code, 200);
    assert_eq!(data.protocol, "https");
    assert_eq!(data.title, "Hi");
    assert_eq!(data.body, "Hello world");
    assert_eq!(data.words_count, 2);
    assert_eq!(data.lines, 1);
    assert_eq!(data.content_type, "text/html");
    assert_eq!(data.content_length, body.chars().count() as u64);
    assert!(!data.points_to_another_host);
}

#[test]
fn line_count_is_newlines_plus_one() {
    // Zero newlines give one line; one newline gives two.
    let mut data = HttpData::new("example.com".to_string());
    assign_response_data(&mut data, parts("no newline here"));
    assert_eq!(data.lines, 1);

    let mut data = HttpData::new("example.com".to_string());
    assign_response_data(&mut data, parts("first\nsecond"));
    assert_eq!(data.lines, 2);

    let mut data = HttpData::new("example.com".to_string());
    assign_response_data(&mut data, parts("first\n"));
    assert_eq!(data.lines, 2);
}

#[test]
fn declared_content_length_wins_when_parseable() {
    let mut data = HttpData::new("example.com".to_string());
    let mut p = parts("abcdef");
    p.content_length = Some("42".to_string());
    assign_response_data(&mut data, p);
    assert_eq!(data.content_length, 42);

    let mut data = HttpData::new("example.com".to_string());
    let mut p = parts("abcdef");
    p.content_length = Some("bogus".to_string());
    assign_response_data(&mut data, p);
    assert_eq!(data.content_length, 6);
}

#[test]
fn missing_elements_read_null() {
    let mut data = HttpData::new("example.com".to_string());
    return_title_and_body(&mut data, "<p>plain</p>");
    assert_eq!(data.title, "NULL");
    // An HTML parser supplies an implicit body element around content.
    assert_eq!(data.body, "<p>plain</p>");
}

#[test]
fn nested_markup_is_preserved() {
    let mut data = HttpData::new("example.com".to_string());
    return_title_and_body(
        &mut data,
        "<html><head><title>T</title></head><body>x <b>y</b></body></html>",
    );
    assert_eq!(data.title, "T");
    assert_eq!(data.body, "x <b>y</b>");
}

#[test]
fn redirect_to_other_host_is_flagged() {
    let mut data = HttpData::new("example.com".to_string());
    let mut p = parts("x");
    p.final_host = Some("cdn.example.net".to_string());
    assign_response_data(&mut data, p);
    assert!(data.points_to_another_host);

    let mut data = HttpData::new("example.com".to_string());
    let mut p = parts("x");
    p.final_host = None;
    assign_response_data(&mut data, p);
    assert!(data.points_to_another_host);
}

#[test]
fn empty_body_yields_defaults() {
    let mut data = HttpData::new("example.com".to_string());
    let mut p = parts("");
    p.content_length = None;
    assign_response_data(&mut data, p);
    assert_eq!(data.content_length, 0);
    assert_eq!(data.words_count, 0);
    assert_eq!(data.lines, 1);
    assert_eq!(data.title, "NULL");
}

#[test]
fn oversized_bodies_are_truncated() {
    let long = "a".repeat(1_048_580);
    let t = truncate_body(long);
    assert_eq!(t.chars().count(), 1_048_576);

    let short = "abc".to_string();
    assert_eq!(truncate_body(short), "abc");
}
