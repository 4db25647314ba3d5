use fhc::fingerprint::{
    collect_filters, filters_run_options, synthetic_paths, synthetic_paths_with_token,
};
use fhc::structs::HttpData;
use fhc::utils::{return_random_string, user_agents};
use std::collections::HashSet;

#[test]
fn four_synthetic_paths_from_one_token() {
    let token = "ABCDEFGHIJ123456";
    let paths = synthetic_paths_with_token("h.example", token);
    assert_eq!(
        paths,
        vec![
            "h.example/adminABCDEFGHIJ123456/".to_string(),
            "h.example/.htaccessABCDEFGHIJ123456".to_string(),
            "h.example/ABCDEFGHIJ123456/".to_string(),
            "h.example/ABCDEFGHIJ123456".to_string(),
        ]
    );
    let distinct: HashSet<&String> = paths.iter().collect();
    assert_eq!(distinct.len(), 4);
}

#[test]
fn random_paths_share_one_token() {
    let paths = synthetic_paths("h.example");
    assert_eq!(paths.len(), 4);
    let token = paths[3].strip_prefix("h.example/").unwrap().to_string();
    assert_eq!(token.chars().count(), 16);
    assert!(token.chars().all(|c| c.is_ascii_alphanumeric()));
    assert_eq!(paths[0], format!("h.example/admin{token}/"));
    assert_eq!(paths[1], format!("h.example/.htaccess{token}"));
    assert_eq!(paths[2], format!("h.example/{token}/"));
    let distinct: HashSet<&String> = paths.iter().collect();
    assert_eq!(distinct.len(), 4);
}

#[test]
fn nested_run_settings_are_fixed() {
    let urls = synthetic_paths_with_token("h.example", "ABCDEFGHIJ123456");
    let opts = filters_run_options(urls.clone(), user_agents());
    assert_eq!(opts.hosts, urls);
    assert_eq!(opts.retries, 1);
    assert_eq!(opts.threads, 4);
    assert!(opts.quiet_flag);
    assert!(!opts.return_filters);
    assert!(!opts.show_full_data);
    assert!(opts.filter_codes.is_none());
    assert!(opts.exclude_codes.is_none());
}

#[test]
fn uniform_responses_give_uniform_fingerprint() {
    // A host that answers every synthetic path with the same shape.
    let mut results = Vec::new();
    for _ in 0..4 {
        let mut d = HttpData::new("h.example".to_string());
        d.content_length = 100;
        d.words_count = 5;
        d.lines = 2;
        results.push(d);
    }
    let f = collect_filters(&results);
    assert_eq!(f.bad_http_lengths, vec!["100"; 4]);
    assert_eq!(f.bad_words_numbers, vec!["5"; 4]);
    assert_eq!(f.bad_lines_numbers, vec!["2"; 4]);
}

#[test]
fn fingerprint_sequences_stay_parallel() {
    let mut results = Vec::new();
    for i in 0..3u64 {
        let mut d = HttpData::new("h".to_string());
        d.content_length = i;
        d.words_count = i as usize * 10;
        d.lines = i as usize + 1;
        results.push(d);
    }
    let f = collect_filters(&results);
    assert_eq!(f.bad_http_lengths.len(), 3);
    assert_eq!(f.bad_words_numbers.len(), 3);
    assert_eq!(f.bad_lines_numbers.len(), 3);
    assert_eq!(f.bad_http_lengths, vec!["0", "1", "2"]);
    assert_eq!(f.bad_words_numbers, vec!["0", "10", "20"]);
    assert_eq!(f.bad_lines_numbers, vec!["1", "2", "3"]);
}

#[test]
fn agent_pool_and_random_choice() {
    let pool = user_agents();
    assert_eq!(pool.len(), 28);
    assert!(pool.iter().all(|a| !a.is_empty()));
    for _ in 0..8 {
        let chosen = return_random_string(&pool);
        assert!(pool.contains(&chosen));
    }
    assert_eq!(return_random_string(&[]), "");
}
