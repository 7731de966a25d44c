//! Merging outcomes across sources: union of successes, isolation of
//! failures, and indifference to completion order.

use vita::aggregate::{aggregate, SourceResult};
use vita::error::Error;
use vita::subdomain_set::SubdomainSet;

fn singleton(name: &str) -> SubdomainSet {
    let mut s = SubdomainSet::new();
    s.insert(name.to_string());
    s
}

#[test]
fn partial_failure_keeps_the_successful_set() {
    let ok = SourceResult {
        name: "AlienVault".to_string(),
        outcome: Ok(singleton("a.hackerone.com")),
    };
    let failed = SourceResult {
        name: "Chaos".to_string(),
        outcome: Err(Error::transport_error("Chaos", "hackerone.com")),
    };
    let agg = aggregate(&vec![ok, failed]);
    assert_eq!(agg.subdomains.len(), 1);
    assert!(agg.subdomains.contains(&"a.hackerone.com".to_string()));
    assert_eq!(agg.failures.len(), 1);
    assert_eq!(agg.failures[0].0, "Chaos");
    assert_eq!(
        agg.failures[0].1.message(),
        "Chaos couldn't connect to: hackerone.com"
    );
}

#[test]
fn completion_order_does_not_change_the_merged_set() {
    let first = vec![
        SourceResult {
            name: "AlienVault".to_string(),
            outcome: Ok(singleton("a.hackerone.com")),
        },
        SourceResult {
            name: "Chaos".to_string(),
            outcome: Err(Error::transport_error("Chaos", "hackerone.com")),
        },
    ];
    let second = vec![
        SourceResult {
            name: "Chaos".to_string(),
            outcome: Err(Error::transport_error("Chaos", "hackerone.com")),
        },
        SourceResult {
            name: "AlienVault".to_string(),
            outcome: Ok(singleton("a.hackerone.com")),
        },
    ];
    let agg1 = aggregate(&first);
    let agg2 = aggregate(&second);
    assert_eq!(agg1.subdomains.len(), 1);
    assert_eq!(agg2.subdomains.len(), 1);
    assert!(agg1.subdomains.contains(&"a.hackerone.com".to_string()));
    assert!(agg2.subdomains.contains(&"a.hackerone.com".to_string()));
    assert_eq!(agg1.failures.len(), 1);
    assert_eq!(agg2.failures.len(), 1);
}

#[test]
fn successful_sets_are_unioned_and_deduplicated() {
    let mut left = SubdomainSet::new();
    left.insert("a.example.com".to_string());
    left.insert("b.example.com".to_string());
    let mut right = SubdomainSet::new();
    right.insert("b.example.com".to_string());
    right.insert("c.example.com".to_string());
    let results = vec![
        SourceResult { name: "AlienVault".to_string(), outcome: Ok(left) },
        SourceResult { name: "Crt.sh".to_string(), outcome: Ok(right) },
    ];
    let agg = aggregate(&results);
    assert_eq!(agg.subdomains.len(), 3);
    assert!(agg.subdomains.contains(&"a.example.com".to_string()));
    assert!(agg.subdomains.contains(&"b.example.com".to_string()));
    assert!(agg.subdomains.contains(&"c.example.com".to_string()));
    assert!(agg.failures.is_empty());
}

#[test]
fn all_failures_are_surfaced() {
    let results = vec![
        SourceResult {
            name: "AlienVault".to_string(),
            outcome: Err(Error::source_error("AlienVault", "anVubmxpa2VzdGVh.com")),
        },
        SourceResult {
            name: "Crt.sh".to_string(),
            outcome: Err(Error::parse_error("Crt.sh", "anVubmxpa2VzdGVh.com")),
        },
    ];
    let agg = aggregate(&results);
    assert!(agg.subdomains.is_empty());
    assert_eq!(agg.failures.len(), 2);
    assert_eq!(agg.failures[0].0, "AlienVault");
    assert_eq!(agg.failures[1].0, "Crt.sh");
}

#[test]
fn empty_run_yields_empty_result() {
    let agg = aggregate(&Vec::new());
    assert!(agg.subdomains.is_empty());
    assert!(agg.failures.is_empty());
}

#[test]
fn subdomain_set_insert_deduplicates() {
    let mut s = SubdomainSet::new();
    s.insert("x.example.com".to_string());
    s.insert("x.example.com".to_string());
    assert_eq!(s.len(), 1);
    let names = s.into_vec();
    assert_eq!(names, vec!["x.example.com".to_string()]);
}
