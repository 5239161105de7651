use keystore::service::{Service, ServiceParseError};

#[test]
fn parse_wellformed_github_identifier() {
    let parsed = Service::parse("alice@github").unwrap();
    assert_eq!(parsed.username(), "alice");
    assert_eq!(parsed.service(), "github");
    assert_eq!(parsed.to_text(), "alice@github");
}

#[test]
fn parse_empty_service_is_invalid() {
    assert!(matches!(
        Service::parse("alice@"),
        Err(ServiceParseError::Invalid)
    ));
}

#[test]
fn parse_unknown_service_is_named() {
    match Service::parse("alice@gitlab") {
        Err(ServiceParseError::Unknown(s)) => assert_eq!(s, "gitlab"),
        other => panic!("expected an unknown-service error, got {:?}", other),
    }
}

#[test]
fn parse_rejects_malformed_identifiers() {
    assert!(matches!(Service::parse(""), Err(ServiceParseError::Invalid)));
    assert!(matches!(Service::parse("alice"), Err(ServiceParseError::Invalid)));
    assert!(matches!(Service::parse("@github"), Err(ServiceParseError::Invalid)));
    assert!(matches!(Service::parse("a@b@c"), Err(ServiceParseError::Invalid)));
    assert!(matches!(Service::parse("@"), Err(ServiceParseError::Invalid)));
}

#[test]
fn proof_text_names_account_object_and_signature() {
    let parsed = Service::parse("alice@github").unwrap();
    let text = parsed.proof_text("5FHneW46", "identity-object", "deadbeef");
    assert_eq!(
        text,
        "I am alice on github verifying account 5FHneW46 for object identity-object\nsignature: deadbeef"
    );
}
