//! What the dialog of runtime actions picks, shows and starts, said of the projects that were
//! detected.

use crate::appearance::Color;
use crate::lookup::{first_with_id, lemma_first_is_found, lemma_first_with_id, HasId};
use crate::runtime_actions::{capability_text, details_of, device_dropdown, device_label, footer_of};
use crate::runtime_actions::{initial_selection, kind_label, modal_device, modal_project};
use crate::runtime_actions::{modal_target, project_dropdown, reason_against, request_of};
use crate::runtime_actions::{run_decision, target_dropdown, with_project, with_target};
use crate::runtime_actions::{CapabilityStateView, DetectedProject, DetectedProjectView};
use crate::runtime_actions::{ExecutionRequestView, ProjectKind, RunDecisionView, RuntimeAction};
use crate::runtime_actions::{RuntimeActionsModalView, RuntimeCapabilitySetView, RuntimeCatalogView};
use crate::runtime_actions::{RuntimeDevice, RuntimeDeviceView, RuntimeErrorView};
use crate::runtime_actions::{RuntimeSelectionStateView, RuntimeTarget, RuntimeTargetView};
use crate::runtime_actions::SelectionDetailsView;
use vstd::prelude::*;

verus! {

/// The project at `p` is the first that `id` names.
pub open spec fn names_project_at(
    projects: Seq<DetectedProjectView>,
    id: Option<Seq<char>>,
    p: int,
) -> bool {
    &&& 0 <= p < projects.len()
    &&& id == Some(projects[p].id)
    &&& forall|j: int| 0 <= j < p ==> id != Some((#[trigger] projects[j]).id)
}

/// The target at `t` is the first that `id` names.
pub open spec fn names_target_at(
    targets: Seq<RuntimeTargetView>,
    id: Option<Seq<char>>,
    t: int,
) -> bool {
    &&& 0 <= t < targets.len()
    &&& id == Some(targets[t].id)
    &&& forall|j: int| 0 <= j < t ==> id != Some((#[trigger] targets[j]).id)
}

/// The device at `d` is the first that `id` names.
pub open spec fn names_device_at(
    devices: Seq<RuntimeDeviceView>,
    id: Option<Seq<char>>,
    d: int,
) -> bool {
    &&& 0 <= d < devices.len()
    &&& id == Some(devices[d].id)
    &&& forall|j: int| 0 <= j < d ==> id != Some((#[trigger] devices[j]).id)
}

/// The project at `p` is picked in the dialog.
pub open spec fn picks_project(modal: RuntimeActionsModalView, p: int) -> bool {
    modal.catalog matches Some(catalog) && names_project_at(
        catalog.projects,
        modal.selection.project_id,
        p,
    )
}

/// No project is picked in the dialog.
pub open spec fn picks_no_project(modal: RuntimeActionsModalView) -> bool {
    modal.catalog matches Some(catalog) ==> forall|j: int|
        0 <= j < catalog.projects.len() ==> modal.selection.project_id != Some(
            (#[trigger] catalog.projects[j]).id,
        )
}

/// `id` names none of the targets.
pub open spec fn names_no_target(targets: Seq<RuntimeTargetView>, id: Option<Seq<char>>) -> bool {
    forall|j: int| 0 <= j < targets.len() ==> id != Some((#[trigger] targets[j]).id)
}

/// `id` names none of the devices.
pub open spec fn names_no_device(devices: Seq<RuntimeDeviceView>, id: Option<Seq<char>>) -> bool {
    forall|j: int| 0 <= j < devices.len() ==> id != Some((#[trigger] devices[j]).id)
}

proof fn lemma_picked_project(modal: RuntimeActionsModalView, p: int)
    ensures
        picks_project(modal, p) ==> modal_project(modal) == Some(
            modal.catalog.unwrap().projects[p],
        ),
        picks_no_project(modal) ==> modal_project(modal) is None,
{
    if let Some(catalog) = modal.catalog {
        let projects = catalog.projects;
        let id = modal.selection.project_id;
        assert forall|i: int| 0 <= i < projects.len() implies DetectedProject::view_id(
            #[trigger] projects[i],
        ) == projects[i].id by {}
        if picks_project(modal, p) {
            lemma_first_is_found::<DetectedProject>(projects, id.unwrap(), p);
        } else if picks_no_project(modal) && id is Some {
            lemma_first_is_found::<DetectedProject>(projects, id.unwrap(), projects.len() as int);
        }
    }
}

proof fn lemma_picked_target(modal: RuntimeActionsModalView, project: DetectedProjectView, t: int)
    requires
        modal_project(modal) == Some(project),
    ensures
        names_target_at(project.targets, modal.selection.target_id, t) ==> modal_target(modal)
            == Some(project.targets[t]),
        names_no_target(project.targets, modal.selection.target_id) ==> modal_target(modal) is None,
{
    let targets = project.targets;
    let id = modal.selection.target_id;
    assert forall|i: int| 0 <= i < targets.len() implies RuntimeTarget::view_id(
        #[trigger] targets[i],
    ) == targets[i].id by {}
    if names_target_at(targets, id, t) {
        lemma_first_is_found::<RuntimeTarget>(targets, id.unwrap(), t);
    } else if names_no_target(targets, id) && id is Some {
        lemma_first_is_found::<RuntimeTarget>(targets, id.unwrap(), targets.len() as int);
    }
}

proof fn lemma_picked_device(modal: RuntimeActionsModalView, project: DetectedProjectView, d: int)
    requires
        modal_project(modal) == Some(project),
    ensures
        names_device_at(project.devices, modal.selection.device_id, d) ==> modal_device(modal)
            == Some(project.devices[d]),
        names_no_device(project.devices, modal.selection.device_id) ==> modal_device(modal) is None,
{
    let devices = project.devices;
    let id = modal.selection.device_id;
    assert forall|i: int| 0 <= i < devices.len() implies RuntimeDevice::view_id(
        #[trigger] devices[i],
    ) == devices[i].id by {}
    if names_device_at(devices, id, d) {
        lemma_first_is_found::<RuntimeDevice>(devices, id.unwrap(), d);
    } else if names_no_device(devices, id) && id is Some {
        lemma_first_is_found::<RuntimeDevice>(devices, id.unwrap(), devices.len() as int);
    }
}

/// Where a project and one of its targets are picked and the project can be built, nothing stands
/// against the build, and it is launched for that project and target, on no device.
pub proof fn lemma_available_build_is_launched(modal: RuntimeActionsModalView, p: int, t: int)
    requires
        picks_project(modal, p),
        names_target_at(
            modal.catalog.unwrap().projects[p].targets,
            modal.selection.target_id,
            t,
        ),
        modal.catalog.unwrap().projects[p].capabilities.build is Available,
    ensures
        ({
            let project = modal.catalog.unwrap().projects[p];
            &&& reason_against(modal, RuntimeAction::Build) is None
            &&& (run_decision(modal, RuntimeAction::Build) matches RunDecisionView::Launch {
                request,
            } && request.project_id == project.id && request.target_id == project.targets[t].id
                && request.device_id is None && request.action == RuntimeAction::Build)
            &&& !modal.loading ==> !footer_of(modal).build_disabled
        }),
{
    lemma_picked_project(modal, p);
    lemma_picked_target(modal, modal.catalog.unwrap().projects[p], t);
}

/// Where a project, one of its targets and one of its devices are picked and the project can be run,
/// nothing stands against the run, and it is launched for that project and target, on that device.
pub proof fn lemma_available_run_is_launched(
    modal: RuntimeActionsModalView,
    p: int,
    t: int,
    d: int,
)
    requires
        picks_project(modal, p),
        names_target_at(
            modal.catalog.unwrap().projects[p].targets,
            modal.selection.target_id,
            t,
        ),
        names_device_at(
            modal.catalog.unwrap().projects[p].devices,
            modal.selection.device_id,
            d,
        ),
        modal.catalog.unwrap().projects[p].capabilities.run is Available,
    ensures
        ({
            let project = modal.catalog.unwrap().projects[p];
            &&& reason_against(modal, RuntimeAction::Run) is None
            &&& (run_decision(modal, RuntimeAction::Run) matches RunDecisionView::Launch {
                request,
            } && request.project_id == project.id && request.target_id == project.targets[t].id
                && request.device_id == Some(project.devices[d].id) && request.action
                == RuntimeAction::Run)
            &&& !modal.loading ==> !footer_of(modal).run_disabled
        }),
{
    lemma_picked_project(modal, p);
    lemma_picked_target(modal, modal.catalog.unwrap().projects[p], t);
    lemma_picked_device(modal, modal.catalog.unwrap().projects[p], d);
}

/// What stands against an action is the first of these: that no target is picked, what the project
/// lacks for that action, and, for a run, that no device is picked.
pub proof fn lemma_reasons(
    modal: RuntimeActionsModalView,
    p: int,
    t: int,
    reason: Seq<char>,
)
    requires
        picks_project(modal, p),
    ensures
        ({
            let project = modal.catalog.unwrap().projects[p];
            let id = modal.selection.target_id;
            let build = project.capabilities.build;
            let run = project.capabilities.run;
            &&& names_no_target(project.targets, id) ==> reason_against(modal, RuntimeAction::Build)
                == Some("Choose a target."@) && reason_against(modal, RuntimeAction::Run) == Some(
                "Choose a target."@,
            )
            &&& names_target_at(project.targets, id, t) && (build
                == CapabilityStateView::RequiresSetup { reason } || build
                == CapabilityStateView::Unavailable { reason }) ==> reason_against(
                modal,
                RuntimeAction::Build,
            ) == Some(reason)
            &&& names_target_at(project.targets, id, t) && (run
                == CapabilityStateView::RequiresSetup { reason } || run
                == CapabilityStateView::Unavailable { reason }) ==> reason_against(
                modal,
                RuntimeAction::Run,
            ) == Some(reason)
            &&& names_target_at(project.targets, id, t) && run is Available && names_no_device(
                project.devices,
                modal.selection.device_id,
            ) ==> reason_against(modal, RuntimeAction::Run) == Some("Choose a device."@)
        }),
{
    let project = modal.catalog.unwrap().projects[p];
    lemma_picked_project(modal, p);
    lemma_picked_target(modal, project, t);
    lemma_picked_device(modal, project, 0);
}

/// What stands against an action stops it, and greys out its button.
pub proof fn lemma_reason_stops_action(modal: RuntimeActionsModalView)
    ensures
        reason_against(modal, RuntimeAction::Build) is Some ==> run_decision(
            modal,
            RuntimeAction::Build,
        ) is Ignored && footer_of(modal).build_disabled,
        reason_against(modal, RuntimeAction::Run) is Some ==> run_decision(
            modal,
            RuntimeAction::Run,
        ) is Ignored && footer_of(modal).run_disabled,
        modal.loading ==> footer_of(modal).build_disabled && footer_of(modal).run_disabled,
        !modal.loading && reason_against(modal, RuntimeAction::Build) is None ==> !footer_of(
            modal,
        ).build_disabled,
        !modal.loading && reason_against(modal, RuntimeAction::Run) is None ==> !footer_of(
            modal,
        ).run_disabled,
{
}

/// Whether a project can be run does not bear on its build, nor the other way round; nor does the
/// picked device bear on a build.
pub proof fn lemma_actions_are_independent(
    modal: RuntimeActionsModalView,
    p: int,
    other: CapabilityStateView,
    device_id: Option<Seq<char>>,
)
    requires
        picks_project(modal, p),
    ensures
        ({
            let catalog = modal.catalog.unwrap();
            let project = catalog.projects[p];
            let other_run = DetectedProjectView {
                capabilities: RuntimeCapabilitySetView { run: other, ..project.capabilities },
                ..project
            };
            let other_build = DetectedProjectView {
                capabilities: RuntimeCapabilitySetView { build: other, ..project.capabilities },
                ..project
            };
            let run_changed = RuntimeActionsModalView {
                catalog: Some(RuntimeCatalogView { projects: catalog.projects.update(p, other_run) }),
                ..modal
            };
            let build_changed = RuntimeActionsModalView {
                catalog: Some(
                    RuntimeCatalogView { projects: catalog.projects.update(p, other_build) },
                ),
                ..modal
            };
            let device_changed = RuntimeActionsModalView {
                selection: RuntimeSelectionStateView { device_id, ..modal.selection },
                ..modal
            };
            &&& reason_against(run_changed, RuntimeAction::Build) == reason_against(
                modal,
                RuntimeAction::Build,
            )
            &&& run_decision(run_changed, RuntimeAction::Build) == run_decision(
                modal,
                RuntimeAction::Build,
            )
            &&& reason_against(build_changed, RuntimeAction::Run) == reason_against(
                modal,
                RuntimeAction::Run,
            )
            &&& run_decision(build_changed, RuntimeAction::Run) == run_decision(
                modal,
                RuntimeAction::Run,
            )
            &&& reason_against(device_changed, RuntimeAction::Build) == reason_against(
                modal,
                RuntimeAction::Build,
            )
            &&& run_decision(device_changed, RuntimeAction::Build) == run_decision(
                modal,
                RuntimeAction::Build,
            )
        }),
{
    let catalog = modal.catalog.unwrap();
    let project = catalog.projects[p];
    let other_run = DetectedProjectView {
        capabilities: RuntimeCapabilitySetView { run: other, ..project.capabilities },
        ..project
    };
    let other_build = DetectedProjectView {
        capabilities: RuntimeCapabilitySetView { build: other, ..project.capabilities },
        ..project
    };
    let run_changed = RuntimeActionsModalView {
        catalog: Some(RuntimeCatalogView { projects: catalog.projects.update(p, other_run) }),
        ..modal
    };
    let build_changed = RuntimeActionsModalView {
        catalog: Some(RuntimeCatalogView { projects: catalog.projects.update(p, other_build) }),
        ..modal
    };
    let device_changed = RuntimeActionsModalView {
        selection: RuntimeSelectionStateView { device_id, ..modal.selection },
        ..modal
    };
    assert(picks_project(run_changed, p));
    assert(picks_project(build_changed, p));
    assert(picks_project(device_changed, p));
    lemma_picked_project(modal, p);
    lemma_picked_project(run_changed, p);
    lemma_picked_project(build_changed, p);
    lemma_picked_project(device_changed, p);
    assert(modal_project(run_changed) == Some(other_run));
    assert(modal_project(build_changed) == Some(other_build));
    assert(modal_project(device_changed) == Some(project));
    assert(modal_target(run_changed) == modal_target(modal));
    assert(modal_target(build_changed) == modal_target(modal));
    assert(modal_target(device_changed) == modal_target(modal));
    assert(modal_device(build_changed) == modal_device(modal));
}

/// An action is asked for of the picked project and target; what is not picked is reported missing.
pub proof fn lemma_request_names_what_is_picked(
    modal: RuntimeActionsModalView,
    action: RuntimeAction,
    p: int,
    t: int,
)
    ensures
        picks_no_project(modal) ==> request_of(modal, action) == Err::<ExecutionRequestView, _>(
            RuntimeErrorView::ProjectNotFound { id: "selected-project"@ },
        ) && reason_against(modal, action) is None && run_decision(modal, action)
            == (RunDecisionView::Failed {
            error: RuntimeErrorView::ProjectNotFound { id: "selected-project"@ },
        }),
        picks_project(modal, p) && names_no_target(
            modal.catalog.unwrap().projects[p].targets,
            modal.selection.target_id,
        ) ==> request_of(modal, action) == Err::<ExecutionRequestView, _>(
            RuntimeErrorView::TargetNotFound { id: "selected-target"@ },
        ),
        picks_project(modal, p) && names_target_at(
            modal.catalog.unwrap().projects[p].targets,
            modal.selection.target_id,
            t,
        ) ==> (request_of(modal, action) matches Ok(request) && request.project_id
            == modal.catalog.unwrap().projects[p].id && request.target_id
            == modal.catalog.unwrap().projects[p].targets[t].id && request.action == action),
{
    lemma_picked_project(modal, p);
    if picks_project(modal, p) {
        lemma_picked_target(modal, modal.catalog.unwrap().projects[p], t);
    }
}

/// The dialog opens with the first project, its first target and its first device picked.
pub proof fn lemma_dialog_opens_with_the_first(catalog: RuntimeCatalogView)
    ensures
        ({
            let selection = initial_selection(catalog);
            &&& catalog.projects.len() == 0 ==> selection.project_id is None && selection.target_id
                is None && selection.device_id is None
            &&& catalog.projects.len() > 0 ==> ({
                let project = catalog.projects[0];
                &&& selection.project_id == Some(project.id)
                &&& project.targets.len() > 0 ==> selection.target_id == Some(project.targets[0].id)
                &&& project.targets.len() == 0 ==> selection.target_id is None
                &&& project.devices.len() > 0 ==> selection.device_id == Some(project.devices[0].id)
                &&& project.devices.len() == 0 ==> selection.device_id is None
            })
        }),
{
    if catalog.projects.len() > 0 {
        let project = catalog.projects[0];
        if project.targets.len() > 0 {
            assert(RuntimeTarget::view_id(project.targets[0]) == project.targets[0].id);
        }
        if project.devices.len() > 0 {
            assert(RuntimeDevice::view_id(project.devices[0]) == project.devices[0].id);
        }
    }
}

/// A project is picked with its first target and its first device, whatever was picked before. One
/// that was not detected leaves what is picked.
pub proof fn lemma_project_is_picked(
    catalog: RuntimeCatalogView,
    selection: RuntimeSelectionStateView,
    id: Seq<char>,
    p: int,
)
    ensures
        names_project_at(catalog.projects, Some(id), p) ==> ({
            let project = catalog.projects[p];
            let after = with_project(catalog, selection, id);
            &&& after.project_id == Some(id)
            &&& project.targets.len() > 0 ==> after.target_id == Some(project.targets[0].id)
            &&& project.targets.len() == 0 ==> after.target_id is None
            &&& project.devices.len() > 0 ==> after.device_id == Some(project.devices[0].id)
            &&& project.devices.len() == 0 ==> after.device_id is None
        }),
        (forall|j: int| 0 <= j < catalog.projects.len() ==> (#[trigger] catalog.projects[j]).id
            != id) ==> with_project(catalog, selection, id) == selection,
{
    let projects = catalog.projects;
    assert forall|i: int| 0 <= i < projects.len() implies DetectedProject::view_id(
        #[trigger] projects[i],
    ) == projects[i].id by {}
    if names_project_at(projects, Some(id), p) {
        lemma_first_is_found::<DetectedProject>(projects, id, p);
        let project = projects[p];
        if project.targets.len() > 0 {
            assert(RuntimeTarget::view_id(project.targets[0]) == project.targets[0].id);
        }
        if project.devices.len() > 0 {
            assert(RuntimeDevice::view_id(project.devices[0]) == project.devices[0].id);
        }
    }
    lemma_first_with_id::<DetectedProject>(projects, id);
    if first_with_id::<DetectedProject>(projects, id) is Some {
        let project = first_with_id::<DetectedProject>(projects, id).unwrap();
        let i = choose|i: int| 0 <= i < projects.len() && projects[i] == project;
        assert(projects[i].id == id);
    }
}

/// A target of the project is picked beside what was picked; the first device goes with it where
/// none was. A target that the project does not have leaves what is picked.
pub proof fn lemma_target_is_picked(
    project: DetectedProjectView,
    selection: RuntimeSelectionStateView,
    id: Seq<char>,
)
    ensures
        ({
            let after = with_target(project, selection, id);
            let known = exists|i: int|
                0 <= i < project.targets.len() && (#[trigger] project.targets[i]).id == id;
            &&& !known ==> after == selection
            &&& known ==> after.target_id == Some(id) && after.project_id == selection.project_id
            &&& known && selection.device_id is Some ==> after.device_id == selection.device_id
            &&& known && selection.device_id is None && project.devices.len() > 0
                ==> after.device_id == Some(project.devices[0].id)
            &&& known && selection.device_id is None && project.devices.len() == 0
                ==> after.device_id is None
        }),
{
    let targets = project.targets;
    assert forall|i: int| 0 <= i < targets.len() implies RuntimeTarget::view_id(
        #[trigger] targets[i],
    ) == targets[i].id by {}
    lemma_first_with_id::<RuntimeTarget>(targets, id);
    if first_with_id::<RuntimeTarget>(targets, id) is Some {
        let target = first_with_id::<RuntimeTarget>(targets, id).unwrap();
        let i = choose|i: int| 0 <= i < targets.len() && targets[i] == target;
        assert(targets[i].id == id);
    }
    if project.devices.len() > 0 {
        assert(RuntimeDevice::view_id(project.devices[0]) == project.devices[0].id);
    }
}

/// The projects are offered in order, by name, and the one that is picked is marked and named.
pub proof fn lemma_projects_are_offered(
    modal: RuntimeActionsModalView,
    catalog: RuntimeCatalogView,
    i: int,
    p: int,
)
    requires
        modal.catalog == Some(catalog),
    ensures
        ({
            let dropdown = project_dropdown(modal);
            &&& dropdown.entries.len() == catalog.projects.len()
            &&& 0 <= i < catalog.projects.len() ==> dropdown.entries[i].id == catalog.projects[i].id
                && dropdown.entries[i].label == catalog.projects[i].label
                && dropdown.entries[i].selected == (modal.selection.project_id == Some(
                catalog.projects[i].id,
            ))
            &&& dropdown.disabled == (modal.loading || catalog.projects.len() == 0)
            &&& picks_project(modal, p) ==> dropdown.label == catalog.projects[p].label
            &&& picks_no_project(modal) ==> dropdown.label == "Select project"@
        }),
{
    lemma_picked_project(modal, p);
}

/// The targets and the devices of the picked project are offered in order, and those that are picked
/// are marked and named.
pub proof fn lemma_targets_and_devices_are_offered(
    modal: RuntimeActionsModalView,
    p: int,
    i: int,
    t: int,
    d: int,
)
    requires
        picks_project(modal, p),
    ensures
        ({
            let project = modal.catalog.unwrap().projects[p];
            let targets = target_dropdown(modal);
            let devices = device_dropdown(modal);
            &&& targets.entries.len() == project.targets.len()
            &&& devices.entries.len() == project.devices.len()
            &&& 0 <= i < project.targets.len() ==> targets.entries[i].id == project.targets[i].id
                && targets.entries[i].label == project.targets[i].label
                && targets.entries[i].selected == (modal.selection.target_id == Some(
                project.targets[i].id,
            ))
            &&& 0 <= i < project.devices.len() ==> devices.entries[i].id == project.devices[i].id
                && devices.entries[i].label == device_label(project.devices[i])
                && devices.entries[i].selected == (modal.selection.device_id == Some(
                project.devices[i].id,
            ))
            &&& targets.disabled == (modal.loading || project.targets.len() == 0)
            &&& devices.disabled == (modal.loading || project.devices.len() == 0)
            &&& names_target_at(project.targets, modal.selection.target_id, t) ==> targets.label
                == project.targets[t].label
            &&& names_no_target(project.targets, modal.selection.target_id) ==> targets.label
                == "Select target"@
            &&& names_device_at(project.devices, modal.selection.device_id, d) ==> devices.label
                == device_label(project.devices[d])
            &&& names_no_device(project.devices, modal.selection.device_id) ==> devices.label
                == "Select device"@
        }),
{
    let project = modal.catalog.unwrap().projects[p];
    lemma_picked_project(modal, p);
    lemma_picked_target(modal, project, t);
    lemma_picked_device(modal, project, d);
}

/// Without a project there is nothing to pick from, and the user is told whether there will be.
pub proof fn lemma_nothing_is_offered_without_project(modal: RuntimeActionsModalView)
    requires
        picks_no_project(modal),
    ensures
        target_dropdown(modal).entries.len() == 0 && target_dropdown(modal).disabled
            && target_dropdown(modal).label == "Select target"@,
        device_dropdown(modal).entries.len() == 0 && device_dropdown(modal).disabled
            && device_dropdown(modal).label == "Select device"@,
        modal.catalog is None ==> project_dropdown(modal).entries.len() == 0 && project_dropdown(
            modal,
        ).disabled && project_dropdown(modal).label == "Select project"@,
        modal.loading ==> details_of(modal) == (SelectionDetailsView::Message {
            text: "Detecting runtime capabilities…"@,
        }),
        !modal.loading ==> details_of(modal) == (SelectionDetailsView::Message {
            text: "No runnable project was detected in this workspace."@,
        }),
{
    lemma_picked_project(modal, 0);
}

/// A device is called by its name, with the version of its system where that is known.
pub proof fn lemma_device_label(device: RuntimeDeviceView)
    ensures
        device.os_version is None ==> device_label(device) == device.name,
        device.os_version matches Some(version) ==> device_label(device) == device.name + " ("@
            + version + ")"@,
{
}

/// The picked project is described by what it is, where it is, and what it can do.
pub proof fn lemma_project_is_described(modal: RuntimeActionsModalView, p: int)
    requires
        picks_project(modal, p),
    ensures
        ({
            let project = modal.catalog.unwrap().projects[p];
            details_of(modal) matches SelectionDetailsView::Project {
                label,
                subtitle,
                build_line,
                run_line,
            } && label == project.label && subtitle == kind_label(project.kind) + " · "@
                + project.workspace_root && build_line == capability_text(
                "Build"@,
                project.capabilities.build,
            ) && run_line == capability_text("Run"@, project.capabilities.run)
        }),
{
    lemma_picked_project(modal, p);
}

/// A capability is named, and said to be available or what it lacks; a kind of project has a name
/// of its own.
pub proof fn lemma_capability_text(label: Seq<char>, reason: Seq<char>)
    ensures
        capability_text(label, CapabilityStateView::Available) == label + ": available"@,
        capability_text(label, CapabilityStateView::RequiresSetup { reason }) == label + ": "@
            + reason,
        capability_text(label, CapabilityStateView::Unavailable { reason }) == label + ": "@
            + reason,
        kind_label(ProjectKind::AppleWorkspace) == "Apple workspace"@,
        kind_label(ProjectKind::AppleProject) == "Apple project"@,
        kind_label(ProjectKind::GpuiApplication) == "GPUI app"@,
{
}

/// The foot of the dialog says what stands against the run, or else against the build, and is
/// coloured as a success only where nothing does.
pub proof fn lemma_footer_says_what_stands_against(modal: RuntimeActionsModalView)
    ensures
        ({
            let build = reason_against(modal, RuntimeAction::Build);
            let run = reason_against(modal, RuntimeAction::Run);
            let footer = footer_of(modal);
            &&& (run matches Some(reason) ==> footer.message == reason)
            &&& run is None ==> (build matches Some(reason) ==> footer.message == reason)
            &&& run is None && build is None ==> footer.message == "Ready to build or run."@
                && footer.color == Color::Success
            &&& run is Some || build is Some ==> footer.color == Color::Muted
        }),
{
}

} // verus!
