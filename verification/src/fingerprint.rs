//! Soft-404 fingerprint detector: builds the synthetic nonexistent
//! paths probed against a host, and collects the shape of what came
//! back into the three parallel fingerprint sequences.
//!
//! The probing itself reuses the dispatcher/prober pair at a smaller
//! scale; the unverified transport runs it and hands the per-path
//! results back to `collect_filters`.

use crate::structs::{hosts_distinct, HTTPFilters, HttpData, LibOptions};
use crate::text::{dec_str, to_decimal};
use crate::utils::{is_ascii_alphanumeric_char, random_token};
use vstd::prelude::*;
use vstd::string::StringExecFns;

verus! {

/// The four synthetic path words derived from one random token.
pub open spec fn synth_words(t: Seq<char>) -> Seq<Seq<char>> {
    seq![
        "admin"@ + t + "/"@,
        ".htaccess"@ + t,
        t + "/"@,
        t,
    ]
}

/// The synthetic probe targets for a host: `host/word` for each of the
/// four words of one token.
pub open spec fn synth_urls(host: Seq<char>, t: Seq<char>) -> Seq<Seq<char>> {
    synth_words(t).map_values(|w: Seq<char>| host + "/"@ + w)
}

/// Builds the four synthetic probe targets of a host for one
/// sixteen-character token. The four targets have pairwise different
/// lengths, so the set they form always has exactly four members.
pub fn synthetic_paths_with_token(host: &str, token: &str) -> (r: Vec<String>)
    requires
        token@.len() == 16,
    ensures
        r@.map_values(|s: String| s@) == synth_urls(host@, token@),
        r@.len() == 4,
        forall|i: int, j: int| 0 <= i < j < r@.len() ==> r@[i]@ != r@[j]@,
{
    proof {
        reveal_strlit("admin");
        reveal_strlit(".htaccess");
        reveal_strlit("/");
    }
    let mut w0 = String::from_str("admin");
    w0.append(token);
    w0.append("/");
    let mut w1 = String::from_str(".htaccess");
    w1.append(token);
    let mut w2 = String::from_str(token);
    w2.append("/");
    let w3 = String::from_str(token);

    let mut r: Vec<String> = Vec::new();
    r.push(prefixed(host, w0));
    r.push(prefixed(host, w1));
    r.push(prefixed(host, w2));
    r.push(prefixed(host, w3));
    proof {
        assert(r@.map_values(|s: String| s@) =~= synth_urls(host@, token@));
        assert(forall|i: int, j: int|
            0 <= i < j < r@.len() ==> r@[i]@.len() != r@[j]@.len());
    }
    r
}

/// One synthetic probe target: the host, a slash, and the path word.
fn prefixed(host: &str, word: String) -> (r: String)
    ensures
        r@ == host@ + "/"@ + word@,
{
    let mut r = String::from_str(host);
    r.append("/");
    r.append(word.as_str());
    r
}

/// Builds the synthetic probe targets of a host from one freshly drawn
/// random token, shared across all four paths.
pub fn synthetic_paths(host: &str) -> (r: Vec<String>)
    ensures
        exists|t: Seq<char>|
            {
                &&& t.len() == 16
                &&& (forall|i: int| 0 <= i < t.len() ==> is_ascii_alphanumeric_char(t[i]))
                &&& r@.map_values(|s: String| s@) == synth_urls(host@, t)
            },
        r@.len() == 4,
        forall|i: int, j: int| 0 <= i < j < r@.len() ==> r@[i]@ != r@[j]@,
{
    let token = random_token();
    let r = synthetic_paths_with_token(host, token.as_str());
    proof {
        let t = token@;
        assert(t.len() == 16 && (forall|i: int|
            0 <= i < t.len() ==> is_ascii_alphanumeric_char(t[i])) && r@.map_values(
            |s: String| s@,
        ) == synth_urls(host@, t));
    }
    r
}

/// The settings of the nested run that probes the synthetic paths: one
/// attempt per path, concurrency equal to the path-set size, quiet,
/// and fingerprinting off — no further recursion. The caller runs it
/// with full metadata extraction enabled.
pub fn filters_run_options(urls: Vec<String>, user_agents: Vec<String>) -> (o: LibOptions)
    requires
        hosts_distinct(urls@),
    ensures
        o.hosts == urls,
        o.user_agents == user_agents,
        o.retries == 1,
        o.threads == urls@.len(),
        o.quiet_flag == true,
        o.return_filters == false,
        o.show_full_data == false,
        o.filter_codes is None,
        o.exclude_codes is None,
        o.wf(),
{
    let threads = urls.len();
    LibOptions {
        hosts: urls,
        user_agents,
        retries: 1,
        threads,
        return_filters: false,
        filter_codes: None,
        exclude_codes: None,
        show_full_data: false,
        quiet_flag: true,
    }
}

/// Collects the fingerprint from the synthetic probes' results: for
/// every result, in order, its content length, word count and line
/// count as decimal text, one entry per probe in each of the three
/// parallel sequences.
pub fn collect_filters(results: &Vec<HttpData>) -> (f: HTTPFilters)
    ensures
        f.bad_http_lengths@.len() == results@.len(),
        f.bad_words_numbers@.len() == results@.len(),
        f.bad_lines_numbers@.len() == results@.len(),
        f.wf(),
        forall|i: int|
            0 <= i < results@.len() ==> {
                &&& (#[trigger] f.bad_http_lengths@[i])@ == dec_str(
                    results@[i].content_length as nat,
                )
                &&& f.bad_words_numbers@[i]@ == dec_str(results@[i].words_count as nat)
                &&& f.bad_lines_numbers@[i]@ == dec_str(results@[i].lines as nat)
            },
{
    let mut f = HTTPFilters::new();
    let mut i: usize = 0;
    while i < results.len()
        invariant
            i <= results@.len(),
            f.bad_http_lengths@.len() == i,
            f.bad_words_numbers@.len() == i,
            f.bad_lines_numbers@.len() == i,
            forall|j: int|
                0 <= j < i ==> {
                    &&& (#[trigger] f.bad_http_lengths@[j])@ == dec_str(
                        results@[j].content_length as nat,
                    )
                    &&& f.bad_words_numbers@[j]@ == dec_str(results@[j].words_count as nat)
                    &&& f.bad_lines_numbers@[j]@ == dec_str(results@[j].lines as nat)
                },
        decreases results@.len() - i,
    {
        f.bad_http_lengths.push(to_decimal(results[i].content_length));
        f.bad_words_numbers.push(to_decimal(results[i].words_count as u64));
        f.bad_lines_numbers.push(to_decimal(results[i].lines as u64));
        i = i + 1;
    }
    f
}

} // verus!
