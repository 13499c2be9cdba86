use glass_core::appearance::{Color, IconName, Severity};
use glass_core::asc_apps::AscAppSummary;
use glass_core::asc_auth::AscAuthSummary;
use glass_core::asc_builds::{AscBuildPage, AscBuildSummary};
use glass_core::asc_provider::{
    build_app_store_connect_workspace_adapter, summarize_workflow_output,
    AppStoreConnectWorkspaceProvider, AuthUiEffect, WorkflowFormUpdate, WorkflowSubmission,
    WorkflowUiEffect,
};
use glass_core::asc_sections::{BuildsBody, OverviewContent, SectionContent, NO_LATEST_BUILD};
use glass_core::hub::{
    ServiceAuthAction, ServiceAuthActionDescriptor, ServiceAuthDescriptor, ServiceInputDescriptor,
    ServiceInputKind, ServiceNavigationItem, ServiceProviderDescriptor, ServiceResourceKind,
    ServiceRunState, ServiceShellDescriptor, ServiceTargetDescriptor, ServiceWorkflowDescriptor,
    ServiceWorkflowKind,
};
use glass_core::input::ServiceInput;
use glass_core::load_state::LoadState;
use glass_core::service_auth::{ServiceAuthStatusSummary, ServiceAuthUiAction, ToggleState};
use glass_core::service_workflow::{
    ServiceWorkflowFieldState, ServiceWorkflowFormState, ServiceWorkflowOption,
    ServiceWorkflowRunSummary, ServiceWorkflowUiAction, ServiceWorkflowUiModel,
};
use glass_core::services_page::ServicesPage;
use glass_core::services_provider::ServicesPageState;
use glass_core::services_surface::{
    build_workflow_option_menu, navigation_icon, render_auth_sidebar_footer,
    render_auth_status_indicator, render_workflow_run, render_workflow_surface,
    sync_page_subscription, AuthButton, FormField,
};

fn workflow(id: &str, kind: ServiceWorkflowKind, targets: &[&str]) -> ServiceWorkflowDescriptor {
    let target_ids: Vec<String> = targets.iter().map(|target| target.to_string()).collect();
    ServiceWorkflowDescriptor {
        id: id.to_string(),
        label: format!("Label {id}"),
        detail: format!("Detail {id}"),
        kind,
        target_ids: target_ids.clone(),
        supports_untargeted: false,
        supported_target_ids: target_ids,
        needs_resource: true,
    }
}

fn descriptor(id: &str) -> ServiceProviderDescriptor {
    ServiceProviderDescriptor {
        id: id.to_string(),
        label: format!("Provider {id}"),
        shell: ServiceShellDescriptor {
            navigation_items: vec![
                ServiceNavigationItem {
                    id: "overview".to_string(),
                    label: "Overview".to_string(),
                },
                ServiceNavigationItem {
                    id: "builds".to_string(),
                    label: "Builds".to_string(),
                },
                ServiceNavigationItem {
                    id: "release".to_string(),
                    label: "Release".to_string(),
                },
            ],
            default_navigation_item_id: "overview".to_string(),
            resource_kind: Some(ServiceResourceKind {
                singular_label: "App".to_string(),
                plural_label: "Apps".to_string(),
            }),
        },
        auth: Some(ServiceAuthDescriptor {
            actions: vec![
                ServiceAuthActionDescriptor {
                    action: ServiceAuthAction::Authenticate,
                    inputs: vec![
                        ServiceInputDescriptor {
                            key: "key".to_string(),
                            label: "Key file".to_string(),
                            kind: ServiceInputKind::FilePath,
                            required: true,
                            placeholder: None,
                        },
                        ServiceInputDescriptor {
                            key: "skip".to_string(),
                            label: "Skip".to_string(),
                            kind: ServiceInputKind::Toggle,
                            required: false,
                            placeholder: None,
                        },
                    ],
                },
                ServiceAuthActionDescriptor {
                    action: ServiceAuthAction::Logout,
                    inputs: vec![],
                },
            ],
        }),
        targets: vec![
            ServiceTargetDescriptor {
                id: "ios".to_string(),
                label: "iOS".to_string(),
                detail: None,
            },
            ServiceTargetDescriptor {
                id: "tv".to_string(),
                label: "tvOS".to_string(),
                detail: Some("big screen".to_string()),
            },
            ServiceTargetDescriptor {
                id: "web".to_string(),
                label: "Web".to_string(),
                detail: None,
            },
        ],
        workflows: vec![
            workflow("status", ServiceWorkflowKind::Status, &["web"]),
            workflow("publish_testflight", ServiceWorkflowKind::Release, &["ios", "tv"]),
            workflow("publish_appstore", ServiceWorkflowKind::Release, &["tv"]),
        ],
    }
}

const ASC: &str = "app-store-connect";

fn app(id: &str) -> AscAppSummary {
    AscAppSummary {
        id: id.to_string(),
        name: format!("App {id}"),
        bundle_id: format!("dev.{id}"),
        sku: format!("SKU-{id}"),
        primary_locale: None,
    }
}

fn build(id: &str) -> AscBuildSummary {
    AscBuildSummary {
        id: id.to_string(),
        build_number: "7".to_string(),
        marketing_version: Some("1.2".to_string()),
        platform: Some("IOS".to_string()),
        processing_state: "VALID".to_string(),
        uploaded_date: "2026-04-05T12:34:56Z".to_string(),
        expiration_date: None,
        testflight_internal_state: None,
        testflight_external_state: None,
        app_store_version_id: None,
        app_store_state: None,
    }
}

fn state(navigation_id: &str) -> ServicesPageState {
    ServicesPageState {
        provider_id: ASC.to_string(),
        navigation_id: navigation_id.to_string(),
        selected_resource_id: None,
        selected_target_id: None,
        selected_workflow_id: None,
    }
}

fn summary(healthy: bool) -> AscAuthSummary {
    AscAuthSummary {
        headline: "headline".to_string(),
        detail: "detail".to_string(),
        warnings: vec!["w1".to_string(), "w2".to_string()],
        healthy,
        authenticated: true,
    }
}

fn provider() -> AppStoreConnectWorkspaceProvider {
    AppStoreConnectWorkspaceProvider::new(descriptor(ASC))
}

fn loaded(state: &mut ServicesPageState) -> AppStoreConnectWorkspaceProvider {
    let mut provider = provider();
    let next = provider.finish_refresh(state, Ok(summary(true)), Ok(vec![app("a"), app("b")]));
    assert_eq!(next, state.selected_resource_id);
    provider.normalize_state(state);
    provider
}

fn page(ids: &[&str], next: Option<&str>) -> AscBuildPage {
    AscBuildPage {
        builds: ids.iter().map(|id| build(id)).collect(),
        next_page_url: next.map(|url| url.to_string()),
    }
}

#[test]
fn adapts_app_store_connect_alone() {
    assert!(build_app_store_connect_workspace_adapter(descriptor(ASC)).is_some());
    assert!(build_app_store_connect_workspace_adapter(descriptor("other")).is_none());
    assert_eq!(provider().descriptor().id, ASC);
}

#[test]
fn puts_the_selection_right() {
    let mut state = state("nowhere");
    state.selected_resource_id = Some("gone".to_string());
    let provider = loaded(&mut state);
    assert_eq!(state.navigation_id, "overview");
    assert_eq!(state.selected_resource_id.as_deref(), Some("a"));
    assert_eq!(state.selected_target_id, None);
    assert_eq!(state.selected_workflow_id, None);

    state.navigation_id = "release".to_string();
    provider.normalize_state(&mut state);
    assert_eq!(state.selected_target_id.as_deref(), Some("ios"));
    assert_eq!(
        state.selected_workflow_id.as_deref(),
        Some("publish_testflight")
    );
    let once = state.clone();
    provider.normalize_state(&mut state);
    assert_eq!(state, once);
}

#[test]
fn leaves_the_resource_alone_until_apps_are_loaded() {
    let mut state = state("overview");
    state.selected_resource_id = Some("later".to_string());
    provider().normalize_state(&mut state);
    assert_eq!(state.selected_resource_id.as_deref(), Some("later"));
}

#[test]
fn offers_workflows_and_targets_of_the_release_section() {
    let mut state = state("release");
    let mut provider = loaded(&mut state);
    let workflows = provider.navigation_workflows(&state);
    assert_eq!(workflows.len(), 2);
    let targets = provider.available_targets(&workflows);
    let ids: Vec<&str> = targets.iter().map(|target| target.id.as_str()).collect();
    assert_eq!(ids, vec!["ios", "tv"]);
    assert_eq!(provider.available_workflows(&state).len(), 1);

    provider.select_target(&mut state, "tv".to_string());
    assert_eq!(provider.available_workflows(&state).len(), 2);
    assert_eq!(
        state.selected_workflow_id.as_deref(),
        Some("publish_testflight")
    );
    provider.select_workflow(&mut state, "publish_appstore".to_string());
    let model = provider.workflow_ui_model(&state).unwrap();
    assert_eq!(model.execute_label, "Run Label publish_appstore");
    assert_eq!(model.form_workflow_id, "publish_appstore");
    assert_eq!(model.target_label, "Target");
    assert_eq!(model.workflow_label, "Workflow");
    assert_eq!(model.disabled_reason, None);
    assert_eq!(model.workflows.len(), 2);
    assert_eq!(
        model.workflows[1].detail.as_deref(),
        Some("Detail publish_appstore")
    );

    provider.select_target(&mut state, "ios".to_string());
    assert_eq!(
        state.selected_workflow_id.as_deref(),
        Some("publish_testflight")
    );
    provider.select_target(&mut state, "web".to_string());
    assert_eq!(state.selected_target_id.as_deref(), Some("ios"));
}

#[test]
fn asks_for_an_app_before_a_workflow() {
    let mut state = state("release");
    let mut provider = provider();
    provider.finish_refresh(&mut state, Ok(summary(true)), Ok(vec![]));
    provider.normalize_state(&mut state);
    let model = provider.workflow_ui_model(&state).unwrap();
    assert_eq!(
        model.disabled_reason.as_deref(),
        Some("Select an app first.")
    );
    assert_eq!(provider.submittable_workflow(&state), None);
    assert_eq!(
        provider.submit_workflow(&state, Ok(ServiceInput::new())),
        WorkflowSubmission::Ignored
    );
}

#[test]
fn shows_no_workflows_elsewhere() {
    let mut state = state("builds");
    let provider = loaded(&mut state);
    assert!(provider.workflow_ui_model(&state).is_none());
    assert!(provider.navigation_workflows(&state).is_empty());
}

#[test]
fn refreshes_everything() {
    let mut state = state("overview");
    let mut provider = loaded(&mut state);
    assert!(provider
        .load_builds_for_app(&mut state, "a".to_string())
        .is_some());
    provider.refresh();
    assert!(matches!(provider.auth_state, LoadState::Loading));
    assert!(matches!(provider.apps_state, LoadState::Loading));
    assert!(matches!(provider.builds_state, LoadState::Ready(_)));
    let next = provider.finish_refresh(
        &mut state,
        Err("auth".to_string()),
        Err("apps".to_string()),
    );
    assert_eq!(next, None);
    assert_eq!(state.selected_resource_id, None);
    assert_eq!(
        provider.auth_status_summary().headline,
        "Authentication check failed"
    );
    let menu = provider.resource_menu(&state).unwrap();
    assert_eq!(menu.current_label, "Select App");
    assert!(menu.disabled);
}

#[test]
fn keeps_or_recovers_the_selected_app() {
    let mut state = state("overview");
    state.selected_resource_id = Some("b".to_string());
    let mut provider = loaded(&mut state);
    assert_eq!(state.selected_resource_id.as_deref(), Some("b"));
    assert!(matches!(provider.builds_state, LoadState::Loading));
    let next = provider.finish_refresh(&mut state, Ok(summary(true)), Ok(vec![app("c")]));
    assert_eq!(next.as_deref(), Some("c"));
    let next = provider.finish_refresh(&mut state, Ok(summary(true)), Ok(vec![]));
    assert_eq!(next, None);
    let menu = provider.resource_menu(&state).unwrap();
    assert_eq!(menu.current_label, "No Apps");
}

#[test]
fn lists_apps_in_a_menu() {
    let mut state = state("overview");
    let menu = provider().resource_menu(&state).unwrap();
    assert_eq!(menu.current_label, "Loading Apps…");
    assert!(menu.disabled);
    let provider = loaded(&mut state);
    let menu = provider.resource_menu(&state).unwrap();
    assert_eq!(menu.singular_label, "App");
    assert_eq!(menu.current_label, "App a");
    assert!(!menu.disabled);
    assert_eq!(menu.entries[1].label, "App b");
    assert_eq!(menu.entries[1].detail.as_deref(), Some("dev.b"));
    state.selected_resource_id = None;
    assert_eq!(
        provider.resource_menu(&state).unwrap().current_label,
        "Select App"
    );
    let mut bare = descriptor(ASC);
    bare.shell.resource_kind = None;
    let bare = AppStoreConnectWorkspaceProvider::new(bare);
    assert!(bare.resource_menu(&state).is_none());
}

#[test]
fn drops_builds_of_another_app() {
    let mut state = state("builds");
    let mut provider = loaded(&mut state);
    let fetch = provider
        .select_resource(&mut state, "b".to_string())
        .unwrap();
    assert_eq!(fetch.app_id, "b");
    assert_eq!(fetch.request.operation, "list_builds");
    assert!(provider
        .select_resource(&mut state, "b".to_string())
        .is_none());
    assert!(!provider.finish_builds(&state, "a", Ok(page(&["x"], None))));
    assert!(matches!(provider.builds_state, LoadState::Loading));
    assert!(provider.finish_builds(&state, "b", Ok(page(&["x", "y"], None))));
    assert_eq!(provider.selected_build().unwrap().id, "x");
    assert!(provider
        .select_resource(&mut state, "zzz".to_string())
        .is_none());
    assert_eq!(state.selected_resource_id.as_deref(), Some("b"));
    assert!(provider.selected_build().is_none());
}

#[test]
fn loads_more_builds_one_page_at_a_time() {
    let mut state = state("builds");
    let mut provider = loaded(&mut state);
    assert!(provider.load_more_builds(&state).is_none());
    provider.finish_builds(&state, "a", Ok(page(&["1"], Some("u2"))));
    let fetch = provider.load_more_builds(&state).unwrap();
    assert_eq!(fetch.app_id, "a");
    assert_eq!(fetch.next_page_url.as_deref(), Some("u2"));
    assert_eq!(
        fetch.request.input.get("next").map(|v| v.as_str()),
        Some("u2")
    );
    assert!(provider.load_more_builds(&state).is_none());
    assert!(!provider.finish_load_more(&state, "b", "u2", Ok(page(&["9"], None))));
    assert!(!provider.finish_load_more(&state, "a", "u9", Ok(page(&["9"], None))));
    assert!(provider.finish_load_more(&state, "a", "u2", Err("slow".to_string())));
    match provider.render_builds_content(&state).body {
        BuildsBody::Table { rows, load_more } => {
            assert_eq!(rows.len(), 1);
            let more = load_more.unwrap();
            assert_eq!(more.error.as_deref(), Some("slow"));
            assert!(more.has_button);
            assert!(!more.disabled);
        }
        _ => panic!("expected a table"),
    }
    assert!(provider.load_more_builds(&state).is_some());
    assert!(provider.finish_load_more(&state, "a", "u2", Ok(page(&["2", "3"], None))));
    assert!(!provider.finish_load_more(&state, "a", "u2", Ok(page(&["2", "3"], None))));
    match provider.render_builds_content(&state).body {
        BuildsBody::Table { rows, load_more } => {
            assert_eq!(rows.len(), 3);
            assert!(load_more.is_none());
        }
        _ => panic!("expected a table"),
    }
}

#[test]
fn refreshes_the_builds_of_the_selected_app() {
    let mut state = state("builds");
    let mut provider = loaded(&mut state);
    provider.finish_builds(&state, "a", Ok(page(&["1"], None)));
    assert!(provider.refresh_builds(&mut state).is_some());
    assert!(provider.selected_build().is_none());
    provider.finish_builds(&state, "a", Err("offline".to_string()));
    assert_eq!(
        provider.render_builds_content(&state).body,
        BuildsBody::Failed {
            title: "Could not load builds".to_string(),
            detail: "offline".to_string()
        }
    );
    state.selected_resource_id = None;
    assert!(provider.refresh_builds(&mut state).is_none());
}

#[test]
fn says_why_there_are_no_builds() {
    let mut empty = state("builds");
    let mut provider = provider();
    let text = |provider: &AppStoreConnectWorkspaceProvider, state: &ServicesPageState| {
        match provider.render_builds_content(state).body {
            BuildsBody::Message { text, color } => {
                assert_eq!(color, Color::Muted);
                text
            }
            _ => panic!("expected a message"),
        }
    };
    assert_eq!(text(&provider, &empty), "Select an app to load its builds.");
    assert!(provider.render_builds_content(&empty).refresh_disabled);
    provider.finish_refresh(&mut empty, Ok(summary(true)), Ok(vec![app("a")]));
    assert_eq!(text(&provider, &empty), "Loading builds…");
    provider.finish_builds(&empty, "a", Ok(page(&[], None)));
    assert_eq!(
        text(&provider, &empty),
        "No builds were returned for the selected app."
    );
    assert!(!provider.render_builds_content(&empty).refresh_disabled);
}

#[test]
fn shows_the_sections() {
    let mut state = state("overview");
    let mut provider = loaded(&mut state);
    match provider.render_section(&state) {
        SectionContent::Overview {
            overview: OverviewContent::App { app, latest_build },
        } => {
            assert_eq!(app.name, "App a");
            assert_eq!(app.bundle_id, "dev.a");
            assert_eq!(app.rows[0].title, "SKU");
            assert_eq!(app.rows[0].value, "SKU-a");
            assert_eq!(app.rows[1].value, "Not Set");
            assert_eq!(app.rows[2].value, "a");
            assert!(latest_build.is_none());
        }
        _ => panic!("expected an app"),
    }
    assert_eq!(
        NO_LATEST_BUILD,
        "No builds are available for the selected app."
    );
    provider.finish_builds(&state, "a", Ok(page(&["1"], None)));
    match provider.render_overview_content(&state) {
        OverviewContent::App { latest_build, .. } => {
            let build = latest_build.unwrap();
            assert_eq!(build.version, "1.2");
            assert_eq!(build.build, "Build 7");
            let values: Vec<&str> = build.rows.iter().map(|row| row.value.as_str()).collect();
            assert_eq!(values, vec!["iOS", "Valid", "2026-04-05 12:34", "Not Set"]);
        }
        OverviewContent::NoApp { .. } => panic!("expected an app"),
    }
    state.navigation_id = "builds".to_string();
    assert!(matches!(
        provider.render_section(&state),
        SectionContent::Builds { .. }
    ));
    state.navigation_id = "release".to_string();
    state.selected_resource_id = None;
    match provider.render_section(&state) {
        SectionContent::Release { release } => {
            assert!(release.run.is_none());
            assert_eq!(release.empty.unwrap().title, "No app selected");
        }
        _ => panic!("expected the release section"),
    }
    state.navigation_id = "overview".to_string();
    match provider.render_overview_content(&state) {
        OverviewContent::NoApp { panel } => assert_eq!(
            panel.detail,
            "Choose an app from the top bar to inspect its release data."
        ),
        OverviewContent::App { .. } => panic!("expected no app"),
    }
}

#[test]
fn runs_a_workflow_from_start_to_end() {
    let mut state = state("release");
    let mut provider = loaded(&mut state);
    assert_eq!(
        provider.submit_workflow(&state, Err("missing".to_string())),
        WorkflowSubmission::Rejected {
            workflow_id: "publish_testflight".to_string(),
            error: "missing".to_string()
        }
    );
    assert!(provider.latest_run.is_none());
    let input = ServiceInput::new().with("artifact", "/a.ipa".to_string());
    let (workflow_id, target_id, label) = match provider.submit_workflow(&state, Ok(input)) {
        WorkflowSubmission::Started {
            workflow_id,
            target_id,
            workflow_label,
            request,
        } => {
            assert_eq!(request.provider_id, ASC);
            assert_eq!(request.workflow, "publish_testflight");
            assert_eq!(request.target_id.as_deref(), Some("ios"));
            assert_eq!(request.resource.unwrap().external_id, "a");
            assert!(request.artifact.is_none());
            assert_eq!(
                request.input.get("artifact").map(|v| v.as_str()),
                Some("/a.ipa")
            );
            (workflow_id, target_id, workflow_label)
        }
        _ => panic!("expected a start"),
    };
    let run = provider.workflow_ui_model(&state).unwrap().run.unwrap();
    assert_eq!(run.state, ServiceRunState::Running);
    assert_eq!(
        run.detail,
        "Running Label publish_testflight for App a."
    );
    assert_eq!(
        provider.finish_workflow(
            &workflow_id,
            &target_id,
            &label,
            Ok("uploading\n  done \n\n".to_string())
        ),
        WorkflowFormUpdate::FinishSuccess {
            workflow_id: workflow_id.clone()
        }
    );
    let run = provider.latest_run.clone().unwrap();
    assert_eq!(run.state, ServiceRunState::Succeeded);
    assert_eq!(run.headline, "Label publish_testflight finished");
    assert_eq!(run.detail, "done");
    assert_eq!(run.output, None);
    let release = provider.render_release_content(&state);
    assert_eq!(release.run.unwrap().detail, "done");
    assert!(release.empty.is_none());

    assert_eq!(
        provider.finish_workflow("nope", &None, "Other", Err("broken".to_string())),
        WorkflowFormUpdate::Unchanged
    );
    let run = provider.latest_run.clone().unwrap();
    assert_eq!(run.state, ServiceRunState::Failed);
    assert_eq!(run.headline, "Other failed");
    assert_eq!(run.detail, "broken");
    assert!(provider.workflow_ui_model(&state).unwrap().run.is_none());
    assert!(provider.render_release_content(&state).run.is_none());
    assert_eq!(
        provider.finish_workflow(
            "publish_appstore",
            &None,
            "Other",
            Err("broken".to_string())
        ),
        WorkflowFormUpdate::SetError {
            workflow_id: "publish_appstore".to_string(),
            error: "broken".to_string()
        }
    );
}

#[test]
fn sums_up_output() {
    assert_eq!(
        summarize_workflow_output(""),
        "Workflow completed successfully."
    );
    assert_eq!(
        summarize_workflow_output(" \r\n\t\n"),
        "Workflow completed successfully."
    );
    assert_eq!(summarize_workflow_output("a\r\nb\r\n"), "b");
    assert_eq!(summarize_workflow_output("one line"), "one line");
}

#[test]
fn works_the_workflow_controls() {
    let mut state = state("release");
    let mut provider = loaded(&mut state);
    assert_eq!(
        provider.handle_workflow_ui_action(&mut state, ServiceWorkflowUiAction::Submit),
        WorkflowUiEffect::BuildInput {
            workflow_id: "publish_testflight".to_string()
        }
    );
    assert_eq!(
        provider.handle_workflow_ui_action(
            &mut state,
            ServiceWorkflowUiAction::PickFile {
                field_key: "artifact".to_string()
            }
        ),
        WorkflowUiEffect::PromptForFile {
            workflow_id: "publish_testflight".to_string(),
            field_key: "artifact".to_string()
        }
    );
    assert_eq!(
        provider.handle_workflow_ui_action(
            &mut state,
            ServiceWorkflowUiAction::SetToggle {
                field_key: "wait".to_string(),
                value: ToggleState::Selected
            }
        ),
        WorkflowUiEffect::UpdateForm {
            update: WorkflowFormUpdate::SetToggle {
                workflow_id: "publish_testflight".to_string(),
                field_key: "wait".to_string(),
                value: ToggleState::Selected
            }
        }
    );
    assert_eq!(
        provider.handle_workflow_ui_action(
            &mut state,
            ServiceWorkflowUiAction::SelectTarget {
                target_id: "tv".to_string()
            }
        ),
        WorkflowUiEffect::Redraw
    );
    assert_eq!(state.selected_target_id.as_deref(), Some("tv"));
    state.selected_workflow_id = None;
    assert_eq!(
        provider.handle_workflow_ui_action(&mut state, ServiceWorkflowUiAction::Submit),
        WorkflowUiEffect::Nothing
    );
    assert_eq!(
        provider.handle_workflow_ui_action(
            &mut state,
            ServiceWorkflowUiAction::PickFile {
                field_key: "artifact".to_string()
            }
        ),
        WorkflowUiEffect::Nothing
    );
    assert_eq!(
        provider.handle_workflow_ui_action(
            &mut state,
            ServiceWorkflowUiAction::SetToggle {
                field_key: "wait".to_string(),
                value: ToggleState::Selected
            }
        ),
        WorkflowUiEffect::Redraw
    );
    assert_eq!(
        provider.handle_workflow_ui_action(
            &mut state,
            ServiceWorkflowUiAction::SelectWorkflow {
                workflow_id: "publish_appstore".to_string()
            }
        ),
        WorkflowUiEffect::Redraw
    );
    assert_eq!(
        provider.selected_workflow_form(&state).as_deref(),
        Some("publish_appstore")
    );
}

#[test]
fn takes_files_for_a_workflow() {
    let provider = provider();
    assert_eq!(
        provider.pick_workflow_file(
            "publish_appstore",
            "artifact",
            Ok(Some(vec!["/a.ipa".to_string()]))
        ),
        WorkflowFormUpdate::SetText {
            workflow_id: "publish_appstore".to_string(),
            field_key: "artifact".to_string(),
            text: "/a.ipa".to_string()
        }
    );
    assert_eq!(
        provider.pick_workflow_file("publish_appstore", "artifact", Ok(None)),
        WorkflowFormUpdate::Unchanged
    );
    assert_eq!(
        provider.pick_workflow_file("publish_appstore", "artifact", Err("no".to_string())),
        WorkflowFormUpdate::SetError {
            workflow_id: "publish_appstore".to_string(),
            error: "no".to_string()
        }
    );
    assert_eq!(
        provider.pick_workflow_file("gone", "artifact", Err("no".to_string())),
        WorkflowFormUpdate::Unchanged
    );
}

#[test]
fn signs_in_and_out() {
    let mut state = state("overview");
    let mut provider = loaded(&mut state);
    assert_eq!(
        provider.handle_auth_ui_action(ServiceAuthUiAction::ShowAuthenticate),
        AuthUiEffect::Redraw
    );
    assert!(provider.auth_form.expanded);
    assert_eq!(
        provider.handle_auth_ui_action(ServiceAuthUiAction::SubmitAuthenticate),
        AuthUiEffect::Redraw
    );
    assert_eq!(
        provider.auth_form.error_message.as_deref(),
        Some("Key file is required")
    );
    assert_eq!(
        provider.handle_auth_ui_action(ServiceAuthUiAction::PickFile {
            field_key: "key".to_string()
        }),
        AuthUiEffect::PromptForFile {
            field_key: "key".to_string()
        }
    );
    provider.pick_auth_file("key", Err("denied".to_string()));
    assert_eq!(provider.auth_form.error_message.as_deref(), Some("denied"));
    provider.pick_auth_file("key", Ok(None));
    provider.pick_auth_file("key", Ok(Some(vec!["/k.p8".to_string()])));
    assert_eq!(
        provider.handle_auth_ui_action(ServiceAuthUiAction::SetToggle {
            field_key: "skip".to_string(),
            value: ToggleState::Selected
        }),
        AuthUiEffect::Redraw
    );
    match provider.handle_auth_ui_action(ServiceAuthUiAction::SubmitAuthenticate) {
        AuthUiEffect::Run { request } => {
            assert_eq!(request.provider_id, ASC);
            assert_eq!(request.input.get("key").map(|v| v.as_str()), Some("/k.p8"));
            assert_eq!(request.input.get("skip").map(|v| v.as_str()), Some("true"));
        }
        _ => panic!("expected a request"),
    }
    assert!(provider.auth_form.pending);
    assert!(!provider.finish_auth(Err("rejected".to_string())));
    assert!(!provider.auth_form.pending);
    assert_eq!(
        provider.auth_form.error_message.as_deref(),
        Some("rejected")
    );
    assert!(provider.submit_authenticate().is_some());
    assert!(provider.finish_auth(Ok(())));
    assert!(!provider.auth_form.expanded);
    assert!(matches!(provider.apps_state, LoadState::Loading));

    match provider.handle_auth_ui_action(ServiceAuthUiAction::Logout) {
        AuthUiEffect::Run { request } => assert_eq!(request.action, ServiceAuthAction::Logout),
        _ => panic!("expected a request"),
    }
    assert_eq!(
        provider.handle_auth_ui_action(ServiceAuthUiAction::CancelAuthenticate),
        AuthUiEffect::Redraw
    );
    assert!(!provider.auth_form.pending);

    let mut bare = descriptor(ASC);
    bare.auth = None;
    let mut bare = AppStoreConnectWorkspaceProvider::new(bare);
    assert_eq!(
        bare.handle_auth_ui_action(ServiceAuthUiAction::Logout),
        AuthUiEffect::Nothing
    );
}

#[test]
fn shows_who_is_signed_in() {
    let mut state = state("overview");
    let mut provider = provider();
    let checking = provider.auth_status_summary();
    assert_eq!(checking.headline, "Checking authentication…");
    assert_eq!(checking.severity, Severity::Success);
    assert!(!checking.authenticated);
    provider.finish_refresh(&mut state, Ok(summary(false)), Ok(vec![]));
    let status = provider.auth_status_summary();
    assert_eq!(status.severity, Severity::Warning);
    assert!(status.authenticated);
    let model = provider.auth_ui_model();
    assert_eq!(model.provider_id, ASC);
    let footer = render_auth_sidebar_footer(&model);
    assert_eq!(footer.tooltip, "headline\ndetail\nw1\nw2");
    assert_eq!(footer.indicator_color, Color::Warning);
    assert_eq!(
        footer.button,
        AuthButton::Overflow {
            label: "Re-authenticate".to_string()
        }
    );
    assert_eq!(footer.logout_label.as_deref(), Some("Log Out"));
    assert!(footer.form.is_none());
    provider.finish_refresh(&mut state, Err("down".to_string()), Ok(vec![]));
    provider.show_authenticate_form();
    let footer = render_auth_sidebar_footer(&provider.auth_ui_model());
    assert_eq!(
        footer.button,
        AuthButton::Open {
            label: "Authenticate".to_string(),
            disabled: false
        }
    );
    assert_eq!(footer.logout_label, None);
    let form = footer.form.unwrap();
    assert_eq!(form.submit_label, "Authenticate");
    assert_eq!(
        form.fields[0],
        FormField::Text {
            field_key: "key".to_string(),
            browse_id: Some("browse-auth-key".to_string())
        }
    );
    assert_eq!(
        form.fields[1],
        FormField::Checkbox {
            element_id: "auth-toggle-skip".to_string(),
            field_key: "skip".to_string(),
            label: "Skip".to_string(),
            value: ToggleState::Unselected
        }
    );
}

#[test]
fn colors_every_severity() {
    let status = |severity: Severity| ServiceAuthStatusSummary {
        severity,
        headline: "h".to_string(),
        detail: "d".to_string(),
        warnings: vec![],
        authenticated: false,
    };
    let color = |severity| render_auth_status_indicator(&status(severity)).0;
    assert_eq!(color(Severity::Success), Color::Success);
    assert_eq!(color(Severity::Warning), Color::Warning);
    assert_eq!(color(Severity::Error), Color::Error);
    assert_eq!(color(Severity::Info), Color::Info);
    assert_eq!(
        render_auth_status_indicator(&status(Severity::Info)).1,
        "h\nd"
    );
}

fn services_page() -> ServicesPage {
    ServicesPage::new(
        vec![descriptor(ASC), descriptor("second")],
        vec![
            AppStoreConnectWorkspaceProvider::new(descriptor(ASC)),
            AppStoreConnectWorkspaceProvider::new(descriptor("second")),
        ],
        state("nowhere"),
    )
}

#[test]
fn opens_the_page_on_a_section_of_the_provider() {
    let page = services_page();
    assert_eq!(page.state.navigation_id, "overview");
    assert_eq!(page.provider().id, ASC);
    assert_eq!(page.active_pane().descriptor().id, ASC);
    assert_eq!(page.tab_content_text(), "Provider app-store-connect");
}

#[test]
fn changes_the_provider() {
    let mut page = services_page();
    page.state.selected_resource_id = Some("a".to_string());
    assert!(!page.select_provider(ASC.to_string()));
    assert_eq!(page.state.selected_resource_id.as_deref(), Some("a"));
    assert!(page.select_provider("second".to_string()));
    assert_eq!(page.state.provider_id, "second");
    assert_eq!(page.state.selected_resource_id, None);
    assert_eq!(page.provider().label, "Provider second");
}

#[test]
fn changes_the_section_and_the_resource() {
    let mut page = services_page();
    {
        let (pane, state) = page.with_provider_mut(ASC).unwrap();
        pane.finish_refresh(state, Ok(summary(true)), Ok(vec![app("a"), app("b")]));
    }
    assert!(page.select_navigation("release".to_string()));
    assert!(!page.select_navigation("release".to_string()));
    assert_eq!(page.state.selected_target_id.as_deref(), Some("ios"));
    assert!(page.select_navigation("builds".to_string()));
    assert_eq!(page.state.selected_target_id, None);
    assert!(page.select_navigation("unknown".to_string()));
    assert_eq!(page.state.navigation_id, "overview");
    assert!(page.select_resource("a".to_string()).is_none());
    assert_eq!(page.select_resource("b".to_string()).unwrap().app_id, "b");
    assert_eq!(page.state.selected_resource_id.as_deref(), Some("b"));
    page.refresh_provider();
    assert!(matches!(
        page.active_pane().apps_state,
        LoadState::Loading
    ));
    assert!(page.with_provider_mut("nobody").is_none());
}

#[test]
fn passes_actions_to_the_provider_they_are_for() {
    let mut page = services_page();
    assert_eq!(
        page.dispatch_auth_action("second", ServiceAuthUiAction::ShowAuthenticate),
        AuthUiEffect::Redraw
    );
    assert!(!page.panes[0].auth_form.expanded);
    assert!(page.panes[1].auth_form.expanded);
    assert_eq!(
        page.dispatch_auth_action("nobody", ServiceAuthUiAction::ShowAuthenticate),
        AuthUiEffect::Nothing
    );
    assert_eq!(
        page.dispatch_workflow_action(
            ASC,
            ServiceWorkflowUiAction::SelectWorkflow {
                workflow_id: "w".to_string()
            }
        ),
        WorkflowUiEffect::Redraw
    );
    assert_eq!(page.state.selected_workflow_id.as_deref(), Some("w"));
    assert_eq!(
        page.dispatch_workflow_action("nobody", ServiceWorkflowUiAction::Submit),
        WorkflowUiEffect::Nothing
    );
}

#[test]
fn draws_the_sidebar() {
    let mut page = services_page();
    {
        let (pane, state) = page.with_provider_mut(ASC).unwrap();
        pane.finish_refresh(state, Ok(summary(true)), Ok(vec![app("a")]));
    }
    let sidebar = page.render_sidebar_controls();
    assert_eq!(sidebar.provider_menu.title, "Provider");
    assert_eq!(
        sidebar.provider_menu.current_label,
        "Provider app-store-connect"
    );
    assert_eq!(sidebar.provider_menu.entries[1].id, "second");
    let resources = sidebar.resource_menu.unwrap();
    assert_eq!(resources.title, "App");
    assert_eq!(resources.entries[0].label, "App a (dev.a)");
    assert_eq!(sidebar.navigation.len(), 3);
    assert_eq!(sidebar.navigation[0].element_id, "services-nav-overview");
    assert!(sidebar.navigation[0].selected);
    assert!(!sidebar.navigation[1].selected);
    assert_eq!(sidebar.navigation[1].icon, IconName::Box);
    assert_eq!(sidebar.footer.detail, "detail");
    assert_eq!(navigation_icon("overview"), IconName::Info);
    assert_eq!(navigation_icon("release"), IconName::ArrowCircle);
    assert_eq!(navigation_icon("elsewhere"), IconName::Globe);
}

#[test]
fn draws_the_page() {
    let mut page = services_page();
    assert!(page.render_provider_content().workflow.is_none());
    page.select_navigation("release".to_string());
    let content = page.render_provider_content();
    assert!(content.workflow.is_some());
    assert!(matches!(content.section, SectionContent::Release { .. }));
}

fn workflow_model() -> ServiceWorkflowUiModel {
    let option = |id: &str, detail: Option<&str>| ServiceWorkflowOption {
        id: id.to_string(),
        label: format!("Label {id}"),
        detail: detail.map(|text| text.to_string()),
    };
    ServiceWorkflowUiModel {
        provider_id: ASC.to_string(),
        target_label: "Target".to_string(),
        selected_target_id: Some("tv".to_string()),
        targets: vec![option("ios", None), option("tv", Some("big"))],
        workflow_label: "Workflow".to_string(),
        selected_workflow_id: Some("gone".to_string()),
        workflows: vec![option("publish", Some("it"))],
        execute_label: "Run it".to_string(),
        form_workflow_id: "publish".to_string(),
        run: Some(ServiceWorkflowRunSummary {
            state: ServiceRunState::Failed,
            headline: "publish failed".to_string(),
            detail: "offline".to_string(),
        }),
        disabled_reason: None,
    }
}

fn workflow_form(pending: bool) -> ServiceWorkflowFormState {
    let descriptor = |key: &str, kind: ServiceInputKind| ServiceInputDescriptor {
        key: key.to_string(),
        label: "Label".to_string(),
        kind,
        required: false,
        placeholder: None,
    };
    ServiceWorkflowFormState {
        fields: vec![
            ServiceWorkflowFieldState::Text {
                descriptor: descriptor("file", ServiceInputKind::FilePath),
            },
            ServiceWorkflowFieldState::Text {
                descriptor: descriptor("note", ServiceInputKind::Text),
            },
            ServiceWorkflowFieldState::Toggle {
                descriptor: descriptor("wait", ServiceInputKind::Toggle),
                value: ToggleState::Indeterminate,
            },
        ],
        pending,
        error_message: Some("wrong".to_string()),
    }
}

#[test]
fn draws_the_workflow_controls() {
    let surface = render_workflow_surface(&workflow_model(), &workflow_form(false));
    let targets = surface.target_menu.unwrap();
    assert_eq!(targets.current_label, "Label tv");
    assert_eq!(targets.entries[0].label, "Label ios");
    assert_eq!(targets.entries[1].label, "Label tv (big)");
    assert_eq!(
        targets.entries[1].action,
        ServiceWorkflowUiAction::SelectTarget {
            target_id: "tv".to_string()
        }
    );
    let workflows = surface.workflow_menu.unwrap();
    assert_eq!(workflows.current_label, "Workflow");
    assert_eq!(
        workflows.entries[0].action,
        ServiceWorkflowUiAction::SelectWorkflow {
            workflow_id: "publish".to_string()
        }
    );
    assert_eq!(surface.fields.len(), 3);
    assert_eq!(
        surface.fields[0],
        FormField::Text {
            field_key: "file".to_string(),
            browse_id: Some("browse-workflow-file".to_string())
        }
    );
    assert_eq!(
        surface.fields[1],
        FormField::Text {
            field_key: "note".to_string(),
            browse_id: None
        }
    );
    assert!(matches!(&surface.fields[2], FormField::Checkbox { element_id, .. }
        if element_id == "workflow-toggle-wait"));
    let run = surface.run.unwrap();
    assert_eq!(run.text, "publish failed: offline");
    assert_eq!(run.color, Color::Error);
    assert!(!surface.execute_disabled);
    assert!(!surface.fields_disabled);
    assert_eq!(surface.error.as_deref(), Some("wrong"));

    let pending = render_workflow_surface(&workflow_model(), &workflow_form(true));
    assert!(pending.execute_disabled);
    assert!(pending.fields_disabled);
    let mut model = workflow_model();
    model.targets.clear();
    model.selected_workflow_id = None;
    let surface = render_workflow_surface(&model, &workflow_form(false));
    assert!(surface.target_menu.is_none());
    assert!(surface.execute_disabled);
    assert!(!surface.fields_disabled);
    let mut model = workflow_model();
    model.disabled_reason = Some("no".to_string());
    assert!(render_workflow_surface(&model, &workflow_form(false)).execute_disabled);
    assert!(build_workflow_option_menu(&vec![], true).is_empty());
}

#[test]
fn puts_runs_into_a_line() {
    let line = |state: ServiceRunState, detail: &str| {
        render_workflow_run(&ServiceWorkflowRunSummary {
            state,
            headline: "head".to_string(),
            detail: detail.to_string(),
        })
    };
    assert_eq!(line(ServiceRunState::Pending, "").text, "head");
    assert_eq!(line(ServiceRunState::Pending, "").color, Color::Muted);
    assert_eq!(line(ServiceRunState::Running, "x").color, Color::Muted);
    assert_eq!(line(ServiceRunState::Succeeded, "x").color, Color::Success);
    assert_eq!(line(ServiceRunState::Succeeded, "x").text, "head: x");
}

#[test]
fn follows_the_page_that_is_open() {
    assert!(!sync_page_subscription(None, None));
    assert!(!sync_page_subscription(Some(1), Some(1)));
    assert!(sync_page_subscription(Some(1), Some(2)));
    assert!(sync_page_subscription(None, Some(2)));
    assert!(sync_page_subscription(Some(1), None));
}
