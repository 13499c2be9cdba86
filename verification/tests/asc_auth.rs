use glass_core::asc_auth::{
    auth_status_request, summarize_auth_status, AscAuthStatusResponse, AscCredential,
};

fn credential(name: &str, is_default: bool, validation: Option<&str>) -> AscCredential {
    AscCredential {
        name: name.to_string(),
        is_default,
        validation: validation.map(|text| text.to_string()),
        validation_detail: None,
        validation_error: None,
    }
}

#[test]
fn summarizes_missing_credentials_as_not_authenticated() {
    let summary = summarize_auth_status(AscAuthStatusResponse {
        storage_backend: "System Keychain".to_string(),
        warnings: None,
        credentials: Vec::new(),
        environment_note: None,
    });

    assert!(!summary.authenticated);
    assert!(!summary.healthy);
    assert_eq!(summary.headline, "Not authenticated");
}

#[test]
fn summarizes_validated_credentials_as_healthy() {
    let summary = summarize_auth_status(AscAuthStatusResponse {
        storage_backend: "System Keychain".to_string(),
        warnings: Some(vec!["warning".to_string()]),
        credentials: vec![AscCredential {
            name: "Personal".to_string(),
            is_default: true,
            validation: Some("works".to_string()),
            validation_detail: None,
            validation_error: None,
        }],
        environment_note: Some("environment note".to_string()),
    });

    assert!(summary.authenticated);
    assert!(summary.healthy);
    assert_eq!(summary.headline, "Authentication validated");
    assert_eq!(summary.warnings.len(), 2);
}

#[test]
fn says_where_no_credentials_are_stored() {
    let summary = summarize_auth_status(AscAuthStatusResponse {
        storage_backend: "System Keychain".to_string(),
        warnings: None,
        credentials: Vec::new(),
        environment_note: Some(" \t\n".to_string()),
    });
    assert_eq!(
        summary.detail,
        "No App Store Connect credentials are stored in System Keychain."
    );
    assert!(summary.warnings.is_empty());
}

#[test]
fn uses_the_default_credential_or_else_the_first() {
    let summary = summarize_auth_status(AscAuthStatusResponse {
        storage_backend: "Keychain".to_string(),
        warnings: None,
        credentials: vec![
            credential("First", false, Some("fails")),
            credential("Second", true, Some("WORKS")),
        ],
        environment_note: None,
    });
    assert!(summary.healthy);
    assert_eq!(summary.detail, "Default credential: Second in Keychain");

    let summary = summarize_auth_status(AscAuthStatusResponse {
        storage_backend: "Keychain".to_string(),
        warnings: None,
        credentials: vec![
            credential("First", false, Some("fails")),
            credential("Second", false, Some("works")),
        ],
        environment_note: None,
    });
    assert!(!summary.healthy);
    assert!(summary.authenticated);
    assert_eq!(summary.headline, "Authentication status: fails");
    assert_eq!(summary.detail, "Default credential: First in Keychain");
}

#[test]
fn prefers_the_error_over_the_detail() {
    let mut with_both = credential("Only", true, None);
    with_both.validation_detail = Some("detail".to_string());
    let summary = summarize_auth_status(AscAuthStatusResponse {
        storage_backend: "Keychain".to_string(),
        warnings: None,
        credentials: vec![with_both.clone()],
        environment_note: None,
    });
    assert_eq!(summary.detail, "detail");
    assert_eq!(summary.headline, "Authentication status: unknown");

    with_both.validation_error = Some("error".to_string());
    let summary = summarize_auth_status(AscAuthStatusResponse {
        storage_backend: "Keychain".to_string(),
        warnings: None,
        credentials: vec![with_both],
        environment_note: None,
    });
    assert_eq!(summary.detail, "error");
}

#[test]
fn asks_for_the_status() {
    let request = auth_status_request();
    assert_eq!(request.provider_id, "app-store-connect");
    assert_eq!(request.operation, "auth_status");
    assert!(request.resource.is_none());
    assert!(request.artifact.is_none());
    assert_eq!(request.input.len(), 0);
}
