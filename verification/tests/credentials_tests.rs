//! Tests for credential validation: every missing required field is
//! reported, not just the first.

use dimo_sdk::credentials::CredentialsError;
use dimo_sdk::get_credentials;

fn load(
    client_id: &str,
    private_key: &str,
    domain: &str,
) -> Result<dimo_sdk::credentials::Credentials, CredentialsError> {
    get_credentials(
        client_id.to_owned(),
        private_key.to_owned(),
        domain.to_owned(),
        String::new(),
        String::new(),
    )
}

#[test]
fn all_required_fields_missing_are_all_reported() {
    let err = load("", "", "").unwrap_err();
    match err {
        CredentialsError::MissingFields(names) => {
            assert_eq!(names, vec!["client_id", "api_key", "redirect_uri"]);
        }
        _ => panic!("expected the full missing-field list"),
    }
}

#[test]
fn each_missing_field_is_reported_alone() {
    match load("", "key", "domain").unwrap_err() {
        CredentialsError::MissingFields(names) => assert_eq!(names, vec!["client_id"]),
        _ => panic!("expected a missing-field list"),
    }
    match load("id", "", "domain").unwrap_err() {
        CredentialsError::MissingFields(names) => assert_eq!(names, vec!["api_key"]),
        _ => panic!("expected a missing-field list"),
    }
    match load("id", "key", "").unwrap_err() {
        CredentialsError::MissingFields(names) => assert_eq!(names, vec!["redirect_uri"]),
        _ => panic!("expected a missing-field list"),
    }
}

#[test]
fn two_missing_fields_are_both_reported() {
    match load("", "key", "").unwrap_err() {
        CredentialsError::MissingFields(names) => {
            assert_eq!(names, vec!["client_id", "redirect_uri"]);
        }
        _ => panic!("expected a missing-field list"),
    }
}

#[test]
fn complete_values_load_and_optional_tokens_default_to_empty() {
    let creds = get_credentials(
        "0xclient".to_owned(),
        "4646".to_owned(),
        "https://example.com".to_owned(),
        String::new(),
        String::new(),
    )
    .unwrap();
    assert_eq!(creds.client_id, "0xclient");
    assert_eq!(creds.private_key, "4646");
    assert_eq!(creds.domain, "https://example.com");
    assert_eq!(creds.developer_jwt, "");
    assert_eq!(creds.vehicle_jwt, "");
}

#[test]
fn empty_pre_issued_tokens_are_not_an_error() {
    assert!(load("id", "key", "domain").is_ok());
}
