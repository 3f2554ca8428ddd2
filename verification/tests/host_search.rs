use color_ssh::host_search::{compute_match_scores, fuzzy_fits_i32, fuzzy_match, strict_match_score, try_compute_match_scores, HostSearchEntry};

fn search_entry(name: &str, hostname: Option<&str>, user: Option<&str>) -> HostSearchEntry {
    HostSearchEntry {
        name_lower: name.to_string(),
        hostname_lower: hostname.map(str::to_string),
        user_lower: user.map(str::to_string),
    }
}

#[test]
fn strict_matching_is_preferred_over_fuzzy_fallback() {
    let entries = vec![
        search_entry("database", Some("db.internal"), Some("deploy")),
        search_entry("dba-stage", Some("stage.internal"), Some("ops")),
    ];

    let strict_scores = compute_match_scores(&entries, "data");
    assert_eq!(strict_scores.len(), 1);
    assert!(strict_scores.contains_key(&0));

    let fuzzy_scores = compute_match_scores(&entries, "dsg");
    assert_eq!(fuzzy_scores.len(), 1);
    assert!(fuzzy_scores.contains_key(&1));
}

#[test]
fn strict_score_orders_prefix_before_later_matches() {
    let prefix_score = strict_match_score("server-app", "server").unwrap_or_default();
    let later_score = strict_match_score("prod-server", "server").unwrap_or_default();
    assert!(prefix_score > later_score);
}

#[test]
fn no_match_returns_empty_score_map() {
    let entries = vec![search_entry("alpha", Some("alpha.internal"), Some("dev"))];
    let scores = compute_match_scores(&entries, "zzz");
    assert!(scores.is_empty());
}

#[test]
fn fuzzy_match_scores_consecutive_runs_higher() {
    assert_eq!(fuzzy_match("abc", ""), Some(0));
    assert_eq!(fuzzy_match("abc", "abc"), Some(6));
    assert_eq!(fuzzy_match("axbxc", "abc"), Some(3));
    assert_eq!(fuzzy_match("abc", "abd"), None);
}

#[test]
fn strict_match_score_values() {
    assert_eq!(strict_match_score("server-app", "server"), Some(306));
    assert_eq!(strict_match_score("prod-server", "server"), Some(195));
    assert_eq!(strict_match_score("prod", "server"), None);
}

#[test]
fn long_queries_are_scored() {
    let long = "a".repeat(70000);
    let entries = vec![search_entry(&long, None, None)];
    let scores = compute_match_scores(&entries, &long);
    assert_eq!(scores.get(&0), Some(&(300 + 70000 + 1000)));

    let alternating = "ab".repeat(70000);
    assert_eq!(fuzzy_match(&alternating, &long), Some(70000));
    let entries = vec![search_entry(&alternating, None, None)];
    let scores = try_compute_match_scores(&entries, &long).expect("fits");
    assert_eq!(scores.get(&0), Some(&(70000 + 100)));
}

#[test]
fn fuzzy_scores_past_i32_are_refused() {
    let long = "a".repeat(70000);
    let mut query = long.clone();
    query.push('b');
    assert!(!fuzzy_fits_i32(&long, &query, 100));
    assert!(fuzzy_fits_i32(&long, "aaa", 100));
    let entries = vec![search_entry(&long, None, None)];
    assert!(try_compute_match_scores(&entries, &query).is_none());
}
