use glass_core::hub::{
    ServiceAuthAction, ServiceAuthActionDescriptor, ServiceAuthDescriptor, ServiceInputDescriptor,
    ServiceInputKind, ServiceProviderDescriptor, ServiceShellDescriptor,
};
use glass_core::service_auth::{ServiceAuthFieldState, ServiceAuthFormState, ToggleState};

fn input(key: &str, kind: ServiceInputKind, required: bool) -> ServiceInputDescriptor {
    ServiceInputDescriptor {
        key: key.to_string(),
        label: format!("The {key}"),
        kind,
        required,
        placeholder: None,
    }
}

fn provider(actions: Option<Vec<ServiceAuthActionDescriptor>>) -> ServiceProviderDescriptor {
    ServiceProviderDescriptor {
        id: "p".to_string(),
        label: "P".to_string(),
        shell: ServiceShellDescriptor {
            navigation_items: vec![],
            default_navigation_item_id: "overview".to_string(),
            resource_kind: None,
        },
        auth: actions.map(|actions| ServiceAuthDescriptor { actions }),
        targets: vec![],
        workflows: vec![],
    }
}

fn form() -> ServiceAuthFormState {
    ServiceAuthFormState::new(&provider(Some(vec![
        ServiceAuthActionDescriptor {
            action: ServiceAuthAction::Logout,
            inputs: vec![],
        },
        ServiceAuthActionDescriptor {
            action: ServiceAuthAction::Authenticate,
            inputs: vec![
                input("name", ServiceInputKind::Text, true),
                input("key", ServiceInputKind::FilePath, false),
                input("skip", ServiceInputKind::Toggle, false),
            ],
        },
    ])))
}

#[test]
fn lays_out_the_fields() {
    let form = form();
    assert_eq!(form.fields.len(), 3);
    assert!(form.logout_available);
    assert!(!form.expanded);
    assert!(!form.pending);
    match &form.fields[1] {
        ServiceAuthFieldState::Text {
            descriptor,
            text,
            tab_index,
        } => {
            assert_eq!(descriptor.key, "key");
            assert_eq!(text, "");
            assert_eq!(*tab_index, 2);
        }
        ServiceAuthFieldState::Toggle { .. } => panic!("expected text"),
    }
    assert_eq!(
        form.fields[2],
        ServiceAuthFieldState::Toggle {
            descriptor: input("skip", ServiceInputKind::Toggle, false),
            value: ToggleState::Unselected
        }
    );
}

#[test]
fn has_no_fields_where_signing_in_is_not_offered() {
    let form = ServiceAuthFormState::new(&provider(None));
    assert!(form.fields.is_empty());
    assert!(!form.logout_available);
    assert_eq!(
        form.build_authenticate_request("p"),
        Err("Authentication is not available for this provider".to_string())
    );
    assert!(form.build_logout_request("p").is_none());
}

#[test]
fn requires_what_must_be_filled_in() {
    let mut form = form();
    assert_eq!(
        form.build_authenticate_request("p"),
        Err("The name is required".to_string())
    );
    form.set_text("name", "  \t");
    assert_eq!(
        form.build_authenticate_request("p"),
        Err("The name is required".to_string())
    );
    form.set_text("name", "  Jo ");
    let request = form.build_authenticate_request("p").unwrap();
    assert_eq!(request.provider_id, "p");
    assert_eq!(request.action, ServiceAuthAction::Authenticate);
    assert_eq!(request.input.len(), 2);
    assert_eq!(request.input.get("name").map(|v| v.as_str()), Some("Jo"));
    assert_eq!(request.input.get("key"), None);
    assert_eq!(request.input.get("skip").map(|v| v.as_str()), Some("false"));
}

#[test]
fn sends_what_was_entered() {
    let mut form = form();
    form.edit_text(0, "Jo".to_string());
    form.edit_text(1, "/key.p8".to_string());
    form.edit_text(2, "ignored".to_string());
    form.edit_text(9, "ignored".to_string());
    form.set_toggle("skip", ToggleState::Selected);
    form.set_toggle("name", ToggleState::Selected);
    let request = form.build_authenticate_request("p").unwrap();
    assert_eq!(request.input.len(), 3);
    assert_eq!(
        request.input.get("key").map(|v| v.as_str()),
        Some("/key.p8")
    );
    assert_eq!(request.input.get("skip").map(|v| v.as_str()), Some("true"));
    form.set_toggle("skip", ToggleState::Indeterminate);
    let request = form.build_authenticate_request("p").unwrap();
    assert_eq!(request.input.get("skip").map(|v| v.as_str()), Some("false"));
}

#[test]
fn opens_and_closes() {
    let mut form = form();
    form.set_error("wrong".to_string());
    form.show();
    assert!(form.expanded);
    assert_eq!(form.error_message, None);
    form.set_pending(true);
    form.set_error("wrong".to_string());
    form.set_text("name", "Jo");
    form.cancel();
    assert!(!form.expanded);
    assert!(!form.pending);
    assert_eq!(form.error_message, None);
    assert!(form.build_authenticate_request("p").is_ok());
    form.show();
    form.set_pending(true);
    form.finish_success();
    assert!(!form.expanded);
    assert!(!form.pending);
}

#[test]
fn signs_out_with_nothing_to_say() {
    let request = form().build_logout_request("p").unwrap();
    assert_eq!(request.action, ServiceAuthAction::Logout);
    assert_eq!(request.input.len(), 0);
}

#[test]
fn ticks_all_the_way_only() {
    assert!(ToggleState::Selected.selected());
    assert!(!ToggleState::Indeterminate.selected());
    assert!(!ToggleState::Unselected.selected());
}
