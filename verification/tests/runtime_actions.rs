use glass_core::appearance::Color;
use glass_core::runtime_actions::{
    capability_line, choose_initial_selection, finish_action, project_kind_label, select_project,
    select_target, selected_project, selection_for_project, CapabilityState, DetectedProject,
    ExecutionRequest, LaunchOutcome, ProjectKind, RunDecision, RuntimeAction, RuntimeActionsModal,
    RuntimeCapabilitySet, RuntimeCatalog, RuntimeDevice, RuntimeError, RuntimeSelectionState,
    RuntimeTarget, SelectionDetails,
};

fn project(id: &str, targets: &[&str], devices: &[&str]) -> DetectedProject {
    DetectedProject {
        id: id.to_string(),
        label: id.to_string(),
        kind: ProjectKind::GpuiApplication,
        workspace_root: format!("/tmp/{id}"),
        targets: targets
            .iter()
            .map(|target| RuntimeTarget {
                id: (*target).to_string(),
                label: (*target).to_string(),
            })
            .collect(),
        devices: devices
            .iter()
            .map(|device| RuntimeDevice {
                id: (*device).to_string(),
                name: (*device).to_string(),
                os_version: None,
            })
            .collect(),
        capabilities: RuntimeCapabilitySet {
            run: CapabilityState::Available,
            build: CapabilityState::Available,
        },
    }
}

fn two_projects() -> RuntimeCatalog {
    RuntimeCatalog {
        projects: vec![
            project("alpha", &["app"], &["mac"]),
            project("beta", &["tool"], &[]),
        ],
    }
}

fn loaded(catalog: RuntimeCatalog) -> RuntimeActionsModal {
    let mut modal = RuntimeActionsModal::new();
    modal.finish_loading(catalog);
    modal
}

#[test]
fn chooses_initial_selection_from_first_project() {
    let catalog = two_projects();

    let selection = choose_initial_selection(&catalog);

    assert_eq!(
        selection,
        RuntimeSelectionState {
            project_id: Some("alpha".to_string()),
            target_id: Some("app".to_string()),
            device_id: Some("mac".to_string()),
        }
    );
}

#[test]
fn resets_target_and_device_when_project_changes() {
    let catalog = two_projects();
    let mut selection = selection_for_project(&catalog.projects[0]);

    select_project(&catalog, &mut selection, "beta".to_string());

    assert_eq!(selection.project_id.as_deref(), Some("beta"));
    assert_eq!(selection.target_id.as_deref(), Some("tool"));
    assert!(selection.device_id.is_none());
}

#[test]
fn keeps_first_device_available_when_target_changes() {
    let project = project("alpha", &["app", "worker"], &["mac"]);
    let mut selection = selection_for_project(&project);
    selection.device_id = None;

    select_target(&project, &mut selection, "worker".to_string());

    assert_eq!(selection.target_id.as_deref(), Some("worker"));
    assert_eq!(selection.device_id.as_deref(), Some("mac"));
}

#[test]
fn picks_nothing_in_an_empty_catalog() {
    let catalog = RuntimeCatalog { projects: vec![] };
    let selection = choose_initial_selection(&catalog);
    assert_eq!(selection.project_id, None);
    assert_eq!(selection.target_id, None);
    assert_eq!(selection.device_id, None);
    assert!(selected_project(&catalog, &selection).is_none());
}

#[test]
fn ignores_projects_and_targets_that_are_not_there() {
    let catalog = two_projects();
    let mut selection = choose_initial_selection(&catalog);
    select_project(&catalog, &mut selection, "gamma".to_string());
    assert_eq!(selection.project_id.as_deref(), Some("alpha"));
    select_target(&catalog.projects[0], &mut selection, "tool".to_string());
    assert_eq!(selection.target_id.as_deref(), Some("app"));
}

#[test]
fn keeps_the_picked_device_when_the_target_changes() {
    let project = project("alpha", &["app", "worker"], &["mac", "phone"]);
    let mut selection = selection_for_project(&project);
    selection.device_id = Some("phone".to_string());
    select_target(&project, &mut selection, "worker".to_string());
    assert_eq!(selection.device_id.as_deref(), Some("phone"));
}

#[test]
fn builds_without_a_device_and_runs_on_the_picked_one() {
    let modal = loaded(two_projects());
    assert_eq!(
        modal.action_request(RuntimeAction::Build),
        Ok(ExecutionRequest {
            project_id: "alpha".to_string(),
            target_id: "app".to_string(),
            device_id: None,
            action: RuntimeAction::Build,
        })
    );
    assert_eq!(
        modal.run_action(RuntimeAction::Run),
        RunDecision::Launch {
            request: ExecutionRequest {
                project_id: "alpha".to_string(),
                target_id: "app".to_string(),
                device_id: Some("mac".to_string()),
                action: RuntimeAction::Run,
            }
        }
    );
}

#[test]
fn says_what_is_missing() {
    let modal = RuntimeActionsModal::new();
    assert_eq!(
        modal.action_request(RuntimeAction::Run),
        Err(RuntimeError::ProjectNotFound {
            id: "selected-project".to_string()
        })
    );
    assert_eq!(modal.action_reason(RuntimeAction::Run), None);
    assert_eq!(
        modal.run_action(RuntimeAction::Build),
        RunDecision::Failed {
            error: RuntimeError::ProjectNotFound {
                id: "selected-project".to_string()
            }
        }
    );

    let modal = loaded(RuntimeCatalog {
        projects: vec![project("alpha", &[], &["mac"])],
    });
    assert_eq!(
        modal.action_request(RuntimeAction::Run),
        Err(RuntimeError::TargetNotFound {
            id: "selected-target".to_string()
        })
    );
    assert_eq!(
        modal.action_reason(RuntimeAction::Build).as_deref(),
        Some("Choose a target.")
    );

    let modal = loaded(RuntimeCatalog {
        projects: vec![project("beta", &["tool"], &[])],
    });
    assert_eq!(modal.action_reason(RuntimeAction::Build), None);
    assert_eq!(
        modal.action_reason(RuntimeAction::Run).as_deref(),
        Some("Choose a device.")
    );
    assert_eq!(modal.run_action(RuntimeAction::Run), RunDecision::Ignored);
}

#[test]
fn gives_the_reason_of_a_capability() {
    let mut unable = project("alpha", &["app"], &["mac"]);
    unable.capabilities.run = CapabilityState::RequiresSetup {
        reason: "Install Xcode.".to_string(),
    };
    unable.capabilities.build = CapabilityState::Unavailable {
        reason: "No toolchain.".to_string(),
    };
    let modal = loaded(RuntimeCatalog {
        projects: vec![unable],
    });
    let footer = modal.render_footer();
    assert_eq!(footer.message, "Install Xcode.");
    assert_eq!(footer.color, Color::Muted);
    assert!(footer.build_disabled);
    assert!(footer.run_disabled);
    assert_eq!(
        modal.render_selection_details(),
        SelectionDetails::Project {
            label: "alpha".to_string(),
            subtitle: "GPUI app · /tmp/alpha".to_string(),
            build_line: "Build: No toolchain.".to_string(),
            run_line: "Run: Install Xcode.".to_string(),
        }
    );
}

#[test]
fn is_ready_with_everything_picked() {
    let footer = loaded(two_projects()).render_footer();
    assert_eq!(footer.message, "Ready to build or run.");
    assert_eq!(footer.color, Color::Success);
    assert!(!footer.build_disabled);
    assert!(!footer.run_disabled);
}

#[test]
fn draws_the_dropdowns() {
    let mut catalog = two_projects();
    catalog.projects[0].devices[0].os_version = Some("15.1".to_string());
    let mut modal = loaded(catalog);
    let projects = modal.render_project_dropdown();
    assert_eq!(projects.label, "alpha");
    assert!(!projects.disabled);
    assert_eq!(projects.entries.len(), 2);
    assert!(projects.entries[0].selected);
    assert!(!projects.entries[1].selected);
    let devices = modal.render_device_dropdown();
    assert_eq!(devices.label, "mac (15.1)");
    assert_eq!(devices.entries[0].label, "mac (15.1)");

    assert!(modal.select_project("beta".to_string()));
    let devices = modal.render_device_dropdown();
    assert_eq!(devices.label, "Select device");
    assert!(devices.disabled);
    let targets = modal.render_target_dropdown();
    assert_eq!(targets.label, "tool");
    assert_eq!(targets.entries[0].id, "tool");
    assert!(targets.entries[0].selected);
}

#[test]
fn draws_the_dialog_while_it_loads() {
    let mut modal = RuntimeActionsModal::new();
    assert!(modal.render_project_dropdown().disabled);
    assert_eq!(modal.render_project_dropdown().label, "Select project");
    assert_eq!(modal.render_target_dropdown().label, "Select target");
    assert_eq!(
        modal.render_selection_details(),
        SelectionDetails::Message {
            text: "Detecting runtime capabilities…".to_string()
        }
    );
    assert!(!modal.select_project("alpha".to_string()));
    assert!(!modal.select_target("app".to_string()));
    modal.finish_loading(RuntimeCatalog { projects: vec![] });
    assert_eq!(
        modal.render_selection_details(),
        SelectionDetails::Message {
            text: "No runnable project was detected in this workspace.".to_string()
        }
    );
}

#[test]
fn picks_a_device_as_told() {
    let mut modal = loaded(two_projects());
    modal.select_device("phone".to_string());
    assert_eq!(modal.selection.device_id.as_deref(), Some("phone"));
    assert!(modal.selected_device().is_none());
    assert!(modal.selected_target().is_some());
}

#[test]
fn dismisses_after_a_launch() {
    assert_eq!(finish_action(true), LaunchOutcome::Dismiss);
    assert_eq!(
        finish_action(false),
        LaunchOutcome::ShowError {
            message: "Could not start the runtime action.".to_string()
        }
    );
}

#[test]
fn puts_capabilities_and_kinds_into_words() {
    assert_eq!(
        capability_line("Build", &CapabilityState::Available),
        "Build: available"
    );
    assert_eq!(
        project_kind_label(ProjectKind::AppleWorkspace),
        "Apple workspace"
    );
    assert_eq!(project_kind_label(ProjectKind::AppleProject), "Apple project");
    assert_eq!(project_kind_label(ProjectKind::GpuiApplication), "GPUI app");
}

#[test]
fn decides_alike_for_every_kind_of_project() {
    let mut catalog = two_projects();
    let before = loaded(two_projects()).run_action(RuntimeAction::Run);
    for project in &mut catalog.projects {
        project.kind = ProjectKind::AppleProject;
    }
    assert_eq!(loaded(catalog).run_action(RuntimeAction::Run), before);
}
