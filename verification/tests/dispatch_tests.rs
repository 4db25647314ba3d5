use fhc::dispatch::Dispatcher;
use fhc::structs::HttpData;

fn hosts(names: &[&str]) -> Vec<String> {
    names.iter().map(|s| s.to_string()).collect()
}

#[test]
fn results_cover_hosts_exactly() {
    // One entry per submitted host, no additions, no omissions, for
    // every concurrency limit from 1 to the host count.
    let names = ["a.example", "b.example", "c.example", "d.example"];
    for threads in 1..=names.len() {
        let mut d = Dispatcher::new(hosts(&names), threads);
        let mut running = Vec::new();
        loop {
            while d.can_launch() {
                running.push(d.launch());
            }
            match running.pop() {
                Some((idx, host)) => d.complete(idx, HttpData::new(host)),
                None => break,
            }
        }
        assert!(d.is_done());
        let results = d.into_results();
        let keys: Vec<&str> = results.iter().map(|p| p.0.as_str()).collect();
        assert_eq!(keys, names.to_vec());
        for (host, data) in &results {
            assert_eq!(&data.checked_host, host);
        }
    }
}

#[test]
fn at_most_limit_in_flight() {
    let names = ["a", "b", "c", "d", "e"];
    let mut d = Dispatcher::new(hosts(&names), 2);
    let (i0, _) = d.launch();
    let (i1, _) = d.launch();
    // Both slots taken: nothing further may start.
    assert!(!d.can_launch());
    assert_eq!(d.in_flight, 2);
    d.complete(i0, HttpData::new("a".to_string()));
    assert!(d.can_launch());
    let (_i2, _) = d.launch();
    assert!(!d.can_launch());
    assert_eq!(d.in_flight, 2);
    d.complete(i1, HttpData::new("b".to_string()));
    assert_eq!(d.in_flight, 1);
}

#[test]
fn limit_is_capped_at_host_count() {
    let d = Dispatcher::new(hosts(&["x", "y"]), 50);
    assert_eq!(d.limit, 2);
}

#[test]
fn zero_threads_clamp_to_one() {
    let mut d = Dispatcher::new(hosts(&["x", "y"]), 0);
    assert_eq!(d.limit, 1);
    let (i0, h0) = d.launch();
    assert!(!d.can_launch());
    d.complete(i0, HttpData::new(h0));
    assert!(d.can_launch());
}

#[test]
fn empty_host_set_finishes_at_once() {
    let d = Dispatcher::new(Vec::new(), 8);
    assert!(d.is_done());
    assert!(d.into_results().is_empty());
}
