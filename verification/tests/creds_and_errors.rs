//! Credential resolution and the message of every error kind.

use vita::error::Error;
use vita::sources::chaos::Creds;

#[test]
fn missing_key_is_key_error_naming_the_variable() {
    let res = Creds::from_lookup(None);
    let e = res.unwrap_err();
    assert_eq!(
        e.message(),
        "Chaos requires these environment variables to be set: CHAOS_KEY"
    );
}

#[test]
fn present_key_resolves_creds() {
    let creds = Creds::from_lookup(Some("example-api-key".to_string())).unwrap();
    assert_eq!(creds.key, "example-api-key");
}

#[test]
fn read_creds_without_variable_names_it() {
    // The test environment does not set CHAOS_KEY; resolution fails before
    // any network request, naming exactly the missing variable.
    if let Err(e) = Creds::read_creds() {
        assert_eq!(
            e.message(),
            "Chaos requires these environment variables to be set: CHAOS_KEY"
        );
    }
}

#[test]
fn source_error_message() {
    let e = Error::source_error("AlienVault", "anVubmxpa2VzdGVh.com");
    assert_eq!(
        e.message(),
        "AlienVault couldn't find any results for: anVubmxpa2VzdGVh.com"
    );
}

#[test]
fn transport_error_message() {
    let e = Error::transport_error("Crt.sh", "hackerone.com");
    assert_eq!(e.message(), "Crt.sh couldn't connect to: hackerone.com");
}

#[test]
fn parse_error_message() {
    let e = Error::parse_error("Chaos", "hackerone.com");
    assert_eq!(e.message(), "Chaos couldn't parse the response for: hackerone.com");
}

#[test]
fn auth_error_message() {
    let e = Error::auth_error("Chaos", "hackerone.com");
    assert_eq!(e.message(), "Chaos couldn't authenticate for: hackerone.com");
}

#[test]
fn key_error_message_joins_variables() {
    let e = Error::key_error("Example", &["FIRST_KEY", "SECOND_KEY"]);
    assert_eq!(
        e.message(),
        "Example requires these environment variables to be set: FIRST_KEY, SECOND_KEY"
    );
}
