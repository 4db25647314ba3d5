//! Data model of the prober: per-host probe results, the soft-404
//! fingerprint, and the per-run configuration.

use vstd::prelude::*;

verus! {

/// Baseline fingerprint of a host's response to synthetic nonexistent
/// paths: three parallel sequences, one entry per synthetic probe,
/// recording the observed content length, word count and line count.
#[derive(Clone, Debug, Eq, PartialEq, Hash, Default)]
pub struct HTTPFilters {
    pub bad_http_lengths: Vec<String>,
    pub bad_words_numbers: Vec<String>,
    pub bad_lines_numbers: Vec<String>,
}

impl HTTPFilters {
    /// The three sequences stay parallel: one entry per synthetic probe.
    pub open spec fn wf(self) -> bool {
        self.bad_http_lengths@.len() == self.bad_words_numbers@.len()
            && self.bad_words_numbers@.len() == self.bad_lines_numbers@.len()
    }

    /// An empty fingerprint, before any synthetic probe ran.
    pub fn new() -> (r: Self)
        ensures
            r.bad_http_lengths@.len() == 0,
            r.bad_words_numbers@.len() == 0,
            r.bad_lines_numbers@.len() == 0,
            r.wf(),
    {
        HTTPFilters {
            bad_http_lengths: Vec::new(),
            bad_words_numbers: Vec::new(),
            bad_lines_numbers: Vec::new(),
        }
    }
}

/// One probe result: liveness, status, scheme, final URL and the
/// extracted metadata of one checked host.
#[derive(Clone, Debug, Eq, PartialEq, Hash, Default)]
pub struct HttpData {
    pub http_status: String,
    pub status_code: u16,
    pub checked_host: String,
    pub final_url: String,
    pub protocol: String,
    pub title: String,
    pub content_type: String,
    pub body: String,
    pub headers: String,
    pub content_length: u64,
    pub words_count: usize,
    pub lines: usize,
    pub bad_data: HTTPFilters,
    pub html_file_path: String,
    pub screenshot_data: Vec<u8>,
    pub points_to_another_host: bool,
}

/// Whether the extracted-metadata fields of a probe result still have
/// their initial values.
pub open spec fn metadata_empty(d: HttpData) -> bool {
    &&& d.title@ == Seq::<char>::empty()
    &&& d.content_type@ == Seq::<char>::empty()
    &&& d.body@ == Seq::<char>::empty()
    &&& d.headers@ == Seq::<char>::empty()
    &&& d.content_length == 0
    &&& d.words_count == 0
    &&& d.lines == 0
    &&& d.bad_data.bad_http_lengths@.len() == 0
    &&& d.bad_data.bad_words_numbers@.len() == 0
    &&& d.bad_data.bad_lines_numbers@.len() == 0
    &&& d.html_file_path@ == Seq::<char>::empty()
    &&& d.screenshot_data@ == Seq::<u8>::empty()
    &&& d.points_to_another_host == false
}

/// Whether every field of a probe result but the checked host still has
/// its initial value.
pub open spec fn fields_empty_but_host(d: HttpData) -> bool {
    &&& d.http_status@ == Seq::<char>::empty()
    &&& d.status_code == 0
    &&& d.final_url@ == Seq::<char>::empty()
    &&& d.protocol@ == Seq::<char>::empty()
    &&& metadata_empty(d)
}

impl HttpData {
    /// A fresh, empty result for one host, created when its probe starts.
    pub fn new(host: String) -> (r: Self)
        ensures
            r.checked_host == host,
            fields_empty_but_host(r),
    {
        HttpData {
            http_status: String::new(),
            status_code: 0,
            checked_host: host,
            final_url: String::new(),
            protocol: String::new(),
            title: String::new(),
            content_type: String::new(),
            body: String::new(),
            headers: String::new(),
            content_length: 0,
            words_count: 0,
            lines: 0,
            bad_data: HTTPFilters::new(),
            html_file_path: String::new(),
            screenshot_data: Vec::new(),
            points_to_another_host: false,
        }
    }
}

/// Whether a host list has set semantics: no host text occurs twice.
pub open spec fn hosts_distinct(hosts: Seq<String>) -> bool {
    forall|i: int, j: int| 0 <= i < j < hosts.len() ==> hosts[i]@ != hosts[j]@
}

/// Immutable per-run settings of the probing engine. The HTTP transport
/// itself lives with the unverified caller; the engine only reads these
/// plain values.
#[derive(Clone, Debug, Default)]
pub struct LibOptions {
    pub hosts: Vec<String>,
    pub user_agents: Vec<String>,
    pub retries: usize,
    pub threads: usize,
    pub return_filters: bool,
    pub filter_codes: Option<String>,
    pub exclude_codes: Option<String>,
    pub show_full_data: bool,
    pub quiet_flag: bool,
}

impl LibOptions {
    /// Hosts are deduplicated before a run: the list has set semantics.
    pub open spec fn wf(self) -> bool {
        hosts_distinct(self.hosts@)
    }
}

} // verus!
