//! The two normalization patterns: direct extraction and composed joins.

use vita::sources::alienvault::{AlienvaultResult, Subdomain};
use vita::sources::chaos::ChaosResult;
use vita::sources::crtsh::CrtshResult;
use vita::IntoSubdomain;

#[test]
fn chaos_composed_normalization() {
    let resp = ChaosResult {
        domain: "example.com".to_string(),
        subdomains: vec!["www".to_string(), "api".to_string()],
    };
    let set = resp.subdomains();
    assert_eq!(set.len(), 2);
    assert!(set.contains(&"www.example.com".to_string()));
    assert!(set.contains(&"api.example.com".to_string()));
    assert!(!set.contains(&"example.com".to_string()));
}

#[test]
fn chaos_composed_normalization_deduplicates() {
    let resp = ChaosResult {
        domain: "example.com".to_string(),
        subdomains: vec!["www".to_string(), "www".to_string()],
    };
    let set = resp.subdomains();
    assert_eq!(set.len(), 1);
    assert!(set.contains(&"www.example.com".to_string()));
}

#[test]
fn alienvault_direct_normalization_deduplicates() {
    let resp = AlienvaultResult {
        passive_dns: vec![
            Subdomain { hostname: "one.example.com".to_string() },
            Subdomain { hostname: "one.example.com".to_string() },
            Subdomain { hostname: "two.example.com".to_string() },
        ],
        count: 3,
    };
    let set = resp.subdomains();
    assert_eq!(set.len(), 2);
    assert!(set.contains(&"one.example.com".to_string()));
    assert!(set.contains(&"two.example.com".to_string()));
}

#[test]
fn crtsh_direct_normalization_deduplicates() {
    let entries = vec![
        CrtshResult { name_value: "mail.example.com".to_string() },
        CrtshResult { name_value: "mail.example.com".to_string() },
    ];
    let set = entries.subdomains();
    assert_eq!(set.len(), 1);
    assert!(set.contains(&"mail.example.com".to_string()));
}
