//! Per-host protocol prober: reduces a bounded sequence of probe
//! attempts, each racing HTTPS against HTTP, to one terminal outcome.
//!
//! The unverified transport performs one attempt at a time (two GETs in
//! flight, the first HTTP-level response wins) and reports what came
//! back; this state machine decides whether to retry and builds the
//! final result.

use crate::structs::{metadata_empty, HttpData};
use vstd::prelude::*;
use vstd::string::StringExecFns;

verus! {

/// What one successful probe attempt yielded: the scheme that won the
/// race, the status code, and the final URL after redirects.
#[derive(Clone, Debug, Eq, PartialEq)]
pub struct ProbeResponse {
    pub protocol: String,
    pub status_code: u16,
    pub final_url: String,
}

/// The prober's state for one host: how many attempts were made of the
/// allowed budget, and the first response obtained, if any.
pub struct HostProbe {
    pub host: String,
    pub retries: usize,
    pub attempts: usize,
    pub response: Option<ProbeResponse>,
}

/// The prober state after one more attempt that yielded `outcome`.
pub open spec fn probe_step(p: HostProbe, outcome: Option<ProbeResponse>) -> HostProbe {
    HostProbe { attempts: (p.attempts + 1) as usize, response: outcome, ..p }
}

/// The prober state after feeding it attempt outcomes one by one, for as
/// long as it still wants an attempt.
pub open spec fn probe_run(p: HostProbe, outcomes: Seq<Option<ProbeResponse>>) -> HostProbe
    decreases outcomes.len(),
{
    if outcomes.len() == 0 || !p.spec_wants_attempt() {
        p
    } else {
        probe_run(probe_step(p, outcomes[0]), outcomes.drop_first())
    }
}

impl HostProbe {
    /// A prober may keep attempting while no response was obtained and
    /// the retry budget is not exhausted.
    pub open spec fn spec_wants_attempt(self) -> bool {
        self.attempts < self.retries && self.response is None
    }

    pub open spec fn wf(self) -> bool {
        &&& self.retries >= 1
        &&& self.attempts <= self.retries
        &&& self.response is Some ==> self.attempts >= 1
    }

    /// Starts probing one host with a positive retry budget.
    pub fn new(host: String, retries: usize) -> (p: Self)
        requires
            retries >= 1,
        ensures
            p == (HostProbe { host, retries, attempts: 0, response: None::<ProbeResponse> }),
            p.wf(),
            p.spec_wants_attempt(),
    {
        HostProbe { host, retries, attempts: 0, response: None }
    }

    /// Whether another attempt should be issued.
    pub fn wants_attempt(&self) -> (b: bool)
        ensures
            b == self.spec_wants_attempt(),
    {
        self.attempts < self.retries && self.response.is_none()
    }

    /// Records what one attempt yielded: the first response obtained
    /// ends the retry loop.
    pub fn record_attempt(&mut self, outcome: Option<ProbeResponse>)
        requires
            old(self).wf(),
            old(self).spec_wants_attempt(),
        ensures
            *final(self) == probe_step(*old(self), outcome),
            final(self).wf(),
            outcome is Some ==> !final(self).spec_wants_attempt(),
    {
        self.attempts = self.attempts + 1;
        self.response = outcome;
    }

    /// Closes the probe once no further attempt is wanted and builds the
    /// host's result: a response makes the host ACTIVE with its scheme,
    /// status code and final URL recorded; exhausted retries without a
    /// response make it INACTIVE with status code 0 and every other
    /// field empty.
    pub fn into_result(self) -> (r: HttpData)
        requires
            self.wf(),
            !self.spec_wants_attempt(),
        ensures
            r.checked_host == self.host,
            self.response matches Some(resp) ==> {
                &&& r.http_status@ == "ACTIVE"@
                &&& r.status_code == resp.status_code
                &&& r.protocol == resp.protocol
                &&& r.final_url == resp.final_url
            },
            self.response is None ==> {
                &&& r.http_status@ == "INACTIVE"@
                &&& r.status_code == 0
                &&& r.final_url@ == Seq::<char>::empty()
                &&& r.protocol@ == Seq::<char>::empty()
            },
            metadata_empty(r),
    {
        let mut data = HttpData::new(self.host);
        match self.response {
            Some(resp) => {
                data.http_status = String::from_str("ACTIVE");
                data.protocol = resp.protocol;
                data.status_code = resp.status_code;
                data.final_url = resp.final_url;
            },
            None => {
                data.http_status = String::from_str("INACTIVE");
            },
        }
        data
    }
}

/// A host with no listening service on either scheme: when every attempt
/// of the budget failed, the prober ends with no response after exactly
/// `retries` attempts, whatever the budget was.
pub proof fn lemma_probe_all_failures(host: String, retries: usize, outcomes: Seq<
    Option<ProbeResponse>,
>)
    requires
        retries >= 1,
        outcomes.len() >= retries,
        forall|i: int| 0 <= i < outcomes.len() ==> outcomes[i] is None,
    ensures
        ({
            let end = probe_run(
                HostProbe { host, retries, attempts: 0, response: None },
                outcomes,
            );
            end.response is None && end.attempts == retries
        }),
{
    lemma_probe_failures_general(
        HostProbe { host, retries, attempts: 0, response: None },
        outcomes,
    );
}

proof fn lemma_probe_failures_general(p: HostProbe, outcomes: Seq<Option<ProbeResponse>>)
    requires
        p.response is None,
        p.attempts <= p.retries,
        outcomes.len() >= p.retries - p.attempts,
        forall|i: int| 0 <= i < outcomes.len() ==> outcomes[i] is None,
    ensures
        probe_run(p, outcomes).response is None,
        probe_run(p, outcomes).attempts == p.retries,
    decreases outcomes.len(),
{
    if outcomes.len() == 0 || !p.spec_wants_attempt() {
    } else {
        lemma_probe_failures_general(probe_step(p, outcomes[0]), outcomes.drop_first());
    }
}

/// With a transport that fails the first `retries - 1` attempts and then
/// succeeds, the prober becomes ACTIVE exactly when the last allowed
/// attempt is reached — with fewer attempts offered it never holds a
/// response.
pub proof fn lemma_probe_succeeds_on_last_attempt(
    host: String,
    retries: usize,
    outcomes: Seq<Option<ProbeResponse>>,
)
    requires
        retries >= 1,
        outcomes.len() == retries,
        forall|i: int| 0 <= i < retries - 1 ==> outcomes[i] is None,
        outcomes[retries - 1] is Some,
    ensures
        probe_run(HostProbe { host, retries, attempts: 0, response: None }, outcomes).response
            == outcomes[retries - 1],
        probe_run(
            HostProbe { host, retries, attempts: 0, response: None },
            outcomes,
        ).attempts == retries,
        forall|k: int|
            0 <= k < retries ==> probe_run(
                HostProbe { host, retries, attempts: 0, response: None },
                #[trigger] outcomes.take(k),
            ).response is None,
{
    let p0 = HostProbe { host, retries, attempts: 0, response: None };
    lemma_probe_succeeds_general(p0, outcomes);
    assert forall|k: int| 0 <= k < retries implies probe_run(
        p0,
        #[trigger] outcomes.take(k),
    ).response is None by {
        lemma_probe_failures_prefix(p0, outcomes.take(k));
    }
}

proof fn lemma_probe_succeeds_general(p: HostProbe, outcomes: Seq<Option<ProbeResponse>>)
    requires
        p.response is None,
        p.attempts < p.retries,
        outcomes.len() == p.retries - p.attempts,
        forall|i: int| 0 <= i < outcomes.len() - 1 ==> outcomes[i] is None,
        outcomes.last() is Some,
    ensures
        probe_run(p, outcomes).response == outcomes.last(),
        probe_run(p, outcomes).attempts == p.retries,
    decreases outcomes.len(),
{
    if outcomes.len() == 1 {
    } else {
        lemma_probe_succeeds_general(probe_step(p, outcomes[0]), outcomes.drop_first());
    }
}

proof fn lemma_probe_failures_prefix(p: HostProbe, outcomes: Seq<Option<ProbeResponse>>)
    requires
        p.response is None,
        forall|i: int| 0 <= i < outcomes.len() ==> outcomes[i] is None,
    ensures
        probe_run(p, outcomes).response is None,
    decreases outcomes.len(),
{
    if outcomes.len() == 0 || !p.spec_wants_attempt() {
    } else {
        lemma_probe_failures_prefix(probe_step(p, outcomes[0]), outcomes.drop_first());
    }
}

} // verus!
