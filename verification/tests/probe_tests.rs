use fhc::probe::{HostProbe, ProbeResponse};

fn response_200() -> ProbeResponse {
    ProbeResponse {
        protocol: "https".to_string(),
        status_code: 200,
        final_url: "https://example.com/".to_string(),
    }
}

#[test]
fn all_attempts_fail_gives_inactive() {
    // A host with no listening service on either scheme, whatever the
    // retry budget.
    for retries in 1..=4usize {
        let mut probe = HostProbe::new("example.com".to_string(), retries);
        let mut attempts = 0;
        while probe.wants_attempt() {
            probe.record_attempt(None);
            attempts += 1;
        }
        assert_eq!(attempts, retries);
        let data = probe.into_result();
        assert_eq!(data.http_status, "INACTIVE");
        assert_eq!(data.status_code, 0);
        assert_eq!(data.final_url, "");
        assert_eq!(data.protocol, "");
        assert_eq!(data.checked_host, "example.com");
    }
}

#[test]
fn succeeds_exactly_on_last_attempt() {
    // A transport that fails the first R-1 attempts and then succeeds:
    // the probe holds no response before the Rth attempt and becomes
    // ACTIVE exactly there.
    let retries = 3usize;
    let mut probe = HostProbe::new("example.com".to_string(), retries);
    for i in 1..retries {
        assert!(probe.wants_attempt());
        probe.record_attempt(None);
        assert_eq!(probe.attempts, i);
        assert!(probe.response.is_none());
    }
    assert!(probe.wants_attempt());
    probe.record_attempt(Some(response_200()));
    assert!(!probe.wants_attempt());
    assert_eq!(probe.attempts, retries);
    let data = probe.into_result();
    assert_eq!(data.http_status, "ACTIVE");
    assert_eq!(data.status_code, 200);
    assert_eq!(data.protocol, "https");
    assert_eq!(data.final_url, "https://example.com/");
}

#[test]
fn first_response_stops_retrying() {
    let mut probe = HostProbe::new("h".to_string(), 5);
    probe.record_attempt(Some(response_200()));
    assert!(!probe.wants_attempt());
    assert_eq!(probe.attempts, 1);
    let data = probe.into_result();
    assert_eq!(data.http_status, "ACTIVE");
}
