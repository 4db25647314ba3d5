//! The command-line surface as plain values, with the documented
//! defaults. Flag parsing itself is left to the unverified binary,
//! which fills this record.

use vstd::prelude::*;

verus! {

/// The run settings a user may give on the command line.
#[derive(Clone, Debug)]
pub struct Cli {
    /// Number of concurrent probes to use.
    pub threads: usize,
    /// Per-request timeout in seconds.
    pub timeout: u64,
    /// Show HTTP status codes, final URL and domain.
    pub show_full_data: bool,
    /// Domain to check; may be omitted when reading hosts from stdin.
    pub domain: Option<String>,
    /// Number of probe attempts per host.
    pub retries: usize,
    /// Maximum number of redirects; zero disallows redirects.
    pub max_redirects: usize,
    /// Treat stdin as a word list to prepend to the domain.
    pub bruteforce: bool,
    /// Status codes to keep, as a comma-separated list.
    pub filter_codes: Option<String>,
    /// Status codes to drop, as a comma-separated list.
    pub exclude_codes: Option<String>,
    /// Suppress all incremental output.
    pub quiet: bool,
}

impl Default for Cli {
    /// The documented defaults: 50 concurrent probes, a 3-second
    /// timeout, one attempt per host, and at most 10 redirects.
    fn default() -> (c: Self)
        ensures
            c.threads == 50,
            c.timeout == 3,
            c.show_full_data == false,
            c.domain is None,
            c.retries == 1,
            c.max_redirects == 10,
            c.bruteforce == false,
            c.filter_codes is None,
            c.exclude_codes is None,
            c.quiet == false,
    {
        Cli {
            threads: 50,
            timeout: 3,
            show_full_data: false,
            domain: None,
            retries: 1,
            max_redirects: 10,
            bruteforce: false,
            filter_codes: None,
            exclude_codes: None,
            quiet: false,
        }
    }
}

} // verus!
