//! Bounded-concurrency dispatcher: fans a host set out across a pool of
//! concurrent probes and collects exactly one result per host.
//!
//! The dispatcher is a reentrant bookkeeping machine: the unverified
//! caller asks it which host to launch next, runs the probe, and hands
//! the result back. The machine guarantees that at most `limit` probes
//! are in flight at any instant and that the collected results cover
//! the submitted hosts exactly.

use crate::structs::{hosts_distinct, HttpData};
use vstd::prelude::*;

verus! {

/// The number of probes of a launched prefix that still lack a result.
pub open spec fn none_count(s: Seq<Option<HttpData>>) -> nat
    decreases s.len(),
{
    if s.len() == 0 {
        0
    } else {
        none_count(s.drop_last()) + if s.last() is None {
            1nat
        } else {
            0nat
        }
    }
}

proof fn lemma_none_count_take_step(s: Seq<Option<HttpData>>, n: int)
    requires
        0 <= n < s.len(),
    ensures
        none_count(s.take(n + 1)) == none_count(s.take(n)) + if s[n] is None {
            1nat
        } else {
            0nat
        },
{
    assert(s.take(n + 1).drop_last() =~= s.take(n));
}

proof fn lemma_none_count_update(s: Seq<Option<HttpData>>, i: int, v: Option<HttpData>)
    requires
        0 <= i < s.len(),
        s[i] is None,
        v is Some,
    ensures
        none_count(s.update(i, v)) + 1 == none_count(s),
    decreases s.len(),
{
    if i == s.len() - 1 {
        assert(s.update(i, v).drop_last() =~= s.drop_last());
    } else {
        assert(s.update(i, v).drop_last() =~= s.drop_last().update(i, v));
        lemma_none_count_update(s.drop_last(), i, v);
    }
}

proof fn lemma_none_count_zero(s: Seq<Option<HttpData>>, i: int)
    requires
        none_count(s) == 0,
        0 <= i < s.len(),
    ensures
        s[i] is Some,
    decreases s.len(),
{
    if i < s.len() - 1 {
        lemma_none_count_zero(s.drop_last(), i);
    }
}

/// The concurrency limit of a run: the configured limit capped at the
/// number of hosts, and clamped to at least one — a configured limit of
/// zero is treated as one.
pub open spec fn effective_limit(threads: nat, n_hosts: nat) -> nat {
    let m = if threads <= n_hosts {
        threads
    } else {
        n_hosts
    };
    if m == 0 {
        1
    } else {
        m
    }
}

/// Bookkeeping of one probing run: which hosts were launched, which
/// results came back, and how many probes are in flight.
pub struct Dispatcher {
    pub hosts: Vec<String>,
    pub results: Vec<Option<HttpData>>,
    pub started: usize,
    pub in_flight: usize,
    pub limit: usize,
}

impl Dispatcher {
    /// The dispatcher's invariant; every operation preserves it. In
    /// particular, the number of probes in flight never exceeds the
    /// concurrency limit.
    pub open spec fn wf(self) -> bool {
        &&& hosts_distinct(self.hosts@)
        &&& self.results@.len() == self.hosts@.len()
        &&& self.started <= self.hosts@.len()
        &&& self.limit >= 1
        &&& self.in_flight == none_count(self.results@.take(self.started as int))
        &&& self.in_flight <= self.limit
        &&& forall|i: int|
            self.started <= i < self.results@.len() ==> self.results@[i] is None
    }

    /// Opens a run over a deduplicated host list with a configured
    /// concurrency limit.
    pub fn new(hosts: Vec<String>, threads: usize) -> (d: Self)
        requires
            hosts_distinct(hosts@),
        ensures
            d.wf(),
            d.hosts == hosts,
            d.started == 0,
            d.in_flight == 0,
            d.limit == effective_limit(threads as nat, hosts@.len()),
    {
        let n = hosts.len();
        let m = if threads <= n {
            threads
        } else {
            n
        };
        let limit = if m == 0 {
            1
        } else {
            m
        };
        let mut results: Vec<Option<HttpData>> = Vec::new();
        let mut i: usize = 0;
        while i < n
            invariant
                i <= n,
                results@.len() == i,
                forall|j: int| 0 <= j < i ==> results@[j] is None,
            decreases n - i,
        {
            results.push(None);
            i = i + 1;
        }
        let d = Dispatcher { hosts, results, started: 0, in_flight: 0, limit };
        proof {
            assert(d.results@.take(0) =~= Seq::<Option<HttpData>>::empty());
        }
        d
    }

    /// Whether a further probe may start now: a host is waiting and a
    /// concurrency slot is free.
    pub fn can_launch(&self) -> (b: bool)
        ensures
            b == (self.started < self.hosts@.len() && self.in_flight < self.limit),
    {
        self.started < self.hosts.len() && self.in_flight < self.limit
    }

    /// Hands out the next waiting host and occupies one concurrency
    /// slot. The returned index identifies the probe until its result
    /// is handed back.
    pub fn launch(&mut self) -> (r: (usize, String))
        requires
            old(self).wf(),
            old(self).started < old(self).hosts@.len(),
            old(self).in_flight < old(self).limit,
        ensures
            final(self).wf(),
            r.0 == old(self).started,
            r.1 == old(self).hosts@[old(self).started as int],
            final(self).hosts == old(self).hosts,
            final(self).results == old(self).results,
            final(self).limit == old(self).limit,
            final(self).started == old(self).started + 1,
            final(self).in_flight == old(self).in_flight + 1,
    {
        let n = self.hosts.len();
        let idx = self.started;
        let host = self.hosts[idx].clone();
        proof {
            lemma_none_count_take_step(self.results@, idx as int);
        }
        self.started = self.started + 1;
        self.in_flight = self.in_flight + 1;
        (idx, host)
    }

    /// Accepts the finished result of the probe launched under `idx`,
    /// freeing its concurrency slot.
    pub fn complete(&mut self, idx: usize, data: HttpData)
        requires
            old(self).wf(),
            idx < old(self).started,
            old(self).results@[idx as int] is None,
        ensures
            final(self).wf(),
            final(self).hosts == old(self).hosts,
            final(self).limit == old(self).limit,
            final(self).started == old(self).started,
            final(self).in_flight + 1 == old(self).in_flight,
            final(self).results@ == old(self).results@.update(idx as int, Some(data)),
    {
        let ghost prev = self.results@;
        let ghost n = self.started as int;
        self.results.remove(idx);
        self.results.insert(idx, Some(data));
        proof {
            assert(self.results@ =~= prev.update(idx as int, Some(data)));
            assert(self.results@.take(n) =~= prev.take(n).update(idx as int, Some(data)));
            assert(prev.take(n)[idx as int] is None);
            lemma_none_count_update(prev.take(n), idx as int, Some(data));
        }
        self.in_flight = self.in_flight - 1;
    }

    /// Whether every submitted host has its result.
    pub fn is_done(&self) -> (b: bool)
        ensures
            b == (self.started == self.hosts@.len() && self.in_flight == 0),
    {
        self.started == self.hosts.len() && self.in_flight == 0
    }

    /// Closes the run and returns one `(host, result)` pair per
    /// submitted host, in submission order: the result mapping covers
    /// the host set exactly, with no additions, no omissions and no
    /// duplicate keys.
    pub fn into_results(self) -> (r: Vec<(String, HttpData)>)
        requires
            self.wf(),
            self.started == self.hosts@.len(),
            self.in_flight == 0,
        ensures
            r@.len() == self.hosts@.len(),
            forall|i: int|
                0 <= i < r@.len() ==> #[trigger] r@[i].0 == self.hosts@[i]
                    && self.results@[i] == Some(r@[i].1),
            r@.map_values(|p: (String, HttpData)| p.0) == self.hosts@,
            forall|i: int, j: int| 0 <= i < j < r@.len() ==> r@[i].0@ != r@[j].0@,
    {
        let ghost orig_hosts = self.hosts@;
        let ghost orig_results = self.results@;
        proof {
            assert(orig_results.take(orig_results.len() as int) =~= orig_results);
        }
        let mut hosts = self.hosts;
        let mut results = self.results;
        let mut out: Vec<(String, HttpData)> = Vec::new();
        while hosts.len() > 0
            invariant
                hosts_distinct(orig_hosts),
                results@.len() == hosts@.len(),
                orig_results.len() == orig_hosts.len(),
                out@.len() + hosts@.len() == orig_hosts.len(),
                hosts@ == orig_hosts.skip(out@.len() as int),
                results@ == orig_results.skip(out@.len() as int),
                none_count(orig_results) == 0,
                forall|i: int|
                    0 <= i < out@.len() ==> #[trigger] out@[i].0 == orig_hosts[i] && orig_results[i]
                        == Some(out@[i].1),
            decreases hosts@.len(),
        {
            let ghost k = out@.len() as int;
            let h = hosts.remove(0);
            let d = results.remove(0);
            proof {
                lemma_none_count_zero(orig_results, k);
                assert(orig_results[k] is Some);
                assert(orig_results.skip(k)[0] == orig_results[k]);
                assert(d == orig_results[k]);
                assert(hosts@ =~= orig_hosts.skip(k + 1));
                assert(results@ =~= orig_results.skip(k + 1));
            }
            out.push((h, d.unwrap()));
        }
        proof {
            assert(out@.map_values(|p: (String, HttpData)| p.0) =~= orig_hosts);
        }
        out
    }
}

/// Bounded concurrency: a well-formed dispatcher never admits more
/// in-flight probes than its concurrency limit.
pub proof fn lemma_in_flight_bounded(d: Dispatcher)
    requires
        d.wf(),
    ensures
        d.in_flight <= d.limit,
{
}

} // verus!
