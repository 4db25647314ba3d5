//! Response extractor: turns the plain values read from one successful
//! HTTP response into the remaining fields of a probe result — title,
//! body excerpt, counts, content type and length, and the cross-host
//! redirect flag.
//!
//! The unverified transport reads the wire and hands over a
//! `ResponseParts`; soft-404 fingerprinting of the resolved host is
//! driven by the caller through the `fingerprint` module.

use crate::structs::HttpData;
use crate::text::{
    chars_of, count_newlines, count_words, lemma_newline_count_le_len, newline_count, parse_u64,
    spec_parse_u64, word_count,
};
use vstd::prelude::*;
use vstd::string::{StrSliceExecFns, StringExecFns};

verus! {

/// The plain values of one successful HTTP response: the content-type
/// header, the raw content-length header text, a dump of all headers,
/// the decoded body, and the host of the final URL after redirects.
pub struct ResponseParts {
    pub content_type: String,
    pub content_length: Option<String>,
    pub headers: String,
    pub body: String,
    pub final_host: Option<String>,
}

/// The cap on decoded body text: larger bodies are truncated, not
/// rejected.
pub const MAX_BODY_CHARS: usize = 1048576;

/// A decoded body held to the fixed cap on characters.
pub open spec fn truncated_body(s: Seq<char>) -> Seq<char> {
    if s.len() <= MAX_BODY_CHARS {
        s
    } else {
        s.take(MAX_BODY_CHARS as int)
    }
}

/// The content length recorded for a response: the declared header
/// value when present and parseable, else the character count of the
/// (possibly truncated) body.
pub open spec fn spec_content_length(parts: ResponseParts) -> u64 {
    match parts.content_length {
        Some(h) => match spec_parse_u64(h@) {
            Some(v) => v,
            None => truncated_body(parts.body@).len() as u64,
        },
        None => truncated_body(parts.body@).len() as u64,
    }
}

/// Whether the response's final host differs from the requested host —
/// a redirect left the origin.
pub open spec fn spec_points_elsewhere(final_host: Option<String>, checked_host: Seq<
    char,
>) -> bool {
    match final_host {
        Some(h) => h@ != checked_host,
        None => true,
    }
}

/// The first element a CSS selector matches in a document: its inner
/// HTML, or nothing when no element matches. The result depends on the
/// document text and the selector alone.
pub uninterp spec fn first_inner_html(doc: Seq<char>, selector: Seq<char>) -> Option<Seq<char>>;

/// Whether the HTML engine accepts a selector text: acceptance depends
/// on the selector alone, never on the document.
pub uninterp spec fn selector_parses(selector: Seq<char>) -> bool;

/// What one selector lookup yielded: the matched element's inner HTML,
/// no matching element, or a selector the HTML engine refused.
pub enum SelectOutcome {
    Found(String),
    Absent,
    NoSelector,
}

/// Relies on scraper's `Html::parse_document`, `Selector::parse`,
/// `Html::select` and `ElementRef::inner_html`: parsing is lenient and
/// deterministic, the first match's inner HTML is a function of the
/// document text and the selector, and `Selector::parse` succeeds or
/// fails on the selector text alone.
#[verifier::external_body]
fn select_first_inner(doc: &str, selector: &str) -> (r: SelectOutcome)
    ensures
        r matches SelectOutcome::Found(s) ==> first_inner_html(doc@, selector@) == Some(s@),
        r is Absent ==> first_inner_html(doc@, selector@) is None,
        r is NoSelector <==> !selector_parses(selector@),
{
    let document = scraper::Html::parse_document(doc);
    match scraper::Selector::parse(selector) {
        Err(_) => SelectOutcome::NoSelector,
        Ok(sel) => match document.select(&sel).next() {
            Some(element) => SelectOutcome::Found(element.inner_html()),
            None => SelectOutcome::Absent,
        },
    }
}

/// What an extracted field becomes for each possible selector outcome:
/// the matched element's inner HTML, the literal marker `NULL` when no
/// element matched, or nothing when the selector itself was refused —
/// the field is then left untouched.
pub fn selected_or_null(outcome: SelectOutcome) -> (r: Option<String>)
    ensures
        outcome matches SelectOutcome::Found(s) ==> (r matches Some(v) && v == s),
        outcome is Absent ==> (r matches Some(v) && v@ == "NULL"@),
        outcome is NoSelector ==> r is None,
{
    match outcome {
        SelectOutcome::Found(s) => Some(s),
        SelectOutcome::Absent => Some(String::from_str("NULL")),
        SelectOutcome::NoSelector => None,
    }
}

/// The text an extracted field ends at when the selector works: the
/// first matched element's inner HTML, or the marker `NULL` when the
/// document has no such element.
pub open spec fn extracted_or_null(doc: Seq<char>, selector: Seq<char>) -> Seq<char> {
    match first_inner_html(doc, selector) {
        Some(t) => t,
        None => "NULL"@,
    }
}

/// Locates the first `title` and `body` elements of a body's HTML and
/// records each element's inner HTML, or `NULL` when absent. A field is
/// left untouched only when the HTML engine refuses its fixed selector.
pub fn return_title_and_body(http_data: &mut HttpData, body: &str)
    ensures
        selector_parses("title"@) ==> final(http_data).title@ == extracted_or_null(
            body@,
            "title"@,
        ),
        !selector_parses("title"@) ==> final(http_data).title == old(http_data).title,
        selector_parses("body"@) ==> final(http_data).body@ == extracted_or_null(body@, "body"@),
        !selector_parses("body"@) ==> final(http_data).body == old(http_data).body,
        *final(http_data) == (HttpData {
            title: final(http_data).title,
            body: final(http_data).body,
            ..*old(http_data)
        }),
{
    match selected_or_null(select_first_inner(body, "title")) {
        Some(t) => {
            http_data.title = t;
        },
        None => {},
    }
    match selected_or_null(select_first_inner(body, "body")) {
        Some(t) => {
            http_data.body = t;
        },
        None => {},
    }
}

/// Populates the metadata fields of an active host's probe result from
/// the plain values of its response: content type and length, header
/// dump, title and body excerpt, word and line counts, and the
/// cross-host redirect flag. The line count is the newline count of the
/// truncated body plus one.
pub fn assign_response_data(http_data: &mut HttpData, parts: ResponseParts)
    ensures
        ({
            let fb = truncated_body(parts.body@);
            &&& final(http_data).http_status@ == "ACTIVE"@
            &&& final(http_data).content_type == parts.content_type
            &&& final(http_data).headers == parts.headers
            &&& final(http_data).content_length == spec_content_length(parts)
            &&& final(http_data).words_count == word_count(fb)
            &&& final(http_data).lines == newline_count(fb) + 1
            &&& final(http_data).points_to_another_host == spec_points_elsewhere(
                parts.final_host,
                old(http_data).checked_host@,
            )
            &&& (selector_parses("title"@) ==> final(http_data).title@ == extracted_or_null(
                fb,
                "title"@,
            ))
            &&& (!selector_parses("title"@) ==> final(http_data).title == old(http_data).title)
            &&& (selector_parses("body"@) ==> final(http_data).body@ == extracted_or_null(
                fb,
                "body"@,
            ))
            &&& (!selector_parses("body"@) ==> final(http_data).body == old(http_data).body)
            &&& final(http_data).checked_host == old(http_data).checked_host
            &&& final(http_data).status_code == old(http_data).status_code
            &&& final(http_data).protocol == old(http_data).protocol
            &&& final(http_data).final_url == old(http_data).final_url
            &&& final(http_data).bad_data == old(http_data).bad_data
            &&& final(http_data).html_file_path == old(http_data).html_file_path
            &&& final(http_data).screenshot_data == old(http_data).screenshot_data
        }),
{
    http_data.http_status = String::from_str("ACTIVE");
    http_data.content_type = parts.content_type;
    http_data.headers = parts.headers;

    let fb = truncate_body(parts.body);
    let chars = chars_of(fb.as_str());

    let body_chars: u64 = chars.len() as u64;
    http_data.content_length = match &parts.content_length {
        Some(h) => match parse_u64(h.as_str()) {
            Some(v) => v,
            None => body_chars,
        },
        None => body_chars,
    };

    return_title_and_body(http_data, fb.as_str());

    http_data.words_count = count_words(&chars);
    proof {
        lemma_newline_count_le_len(chars@);
    }
    http_data.lines = count_newlines(&chars) + 1;

    http_data.points_to_another_host = match &parts.final_host {
        Some(h) => !h.eq(&http_data.checked_host),
        None => true,
    };
}

/// Truncates a decoded body to the fixed cap on characters.
pub fn truncate_body(body: String) -> (r: String)
    ensures
        r@ == truncated_body(body@),
{
    let n = body.as_str().unicode_len();
    if n <= MAX_BODY_CHARS {
        body
    } else {
        String::from_str(body.as_str().substring_char(0, MAX_BODY_CHARS))
    }
}

} // verus!
