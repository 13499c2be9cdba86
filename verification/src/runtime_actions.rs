//! The runtime dialog: a project, a target and a device are picked, and a build or a run is started.

use crate::appearance::Color;
use crate::lookup::{find_by_id, find_selected, first_id, first_with_id, has_id, id_of_first};
use crate::lookup::{lemma_first_with_id, lemma_member_has_id, selected_of, HasId};
use crate::text::{cat2, cat3, cat4, opt_clone, opt_is};
use vstd::prelude::*;
use vstd::string::*;

verus! {

/// What kind of project was detected.
#[derive(Clone, Copy, Debug, PartialEq, Eq, Structural)]
pub enum ProjectKind {
    AppleWorkspace,
    AppleProject,
    GpuiApplication,
}

/// What is started.
#[derive(Clone, Copy, Debug, PartialEq, Eq, Structural)]
pub enum RuntimeAction {
    Build,
    Run,
}

/// Whether an action can be started.
#[derive(Debug, PartialEq, Eq)]
pub enum CapabilityState {
    Available,
    RequiresSetup { reason: String },
    Unavailable { reason: String },
}

/// The value of a [`CapabilityState`].
#[verifier::ext_equal]
pub enum CapabilityStateView {
    Available,
    RequiresSetup { reason: Seq<char> },
    Unavailable { reason: Seq<char> },
}

impl DeepView for CapabilityState {
    type V = CapabilityStateView;

    open spec fn deep_view(&self) -> CapabilityStateView {
        match self {
            CapabilityState::Available => CapabilityStateView::Available,
            CapabilityState::RequiresSetup { reason } => CapabilityStateView::RequiresSetup {
                reason: reason@,
            },
            CapabilityState::Unavailable { reason } => CapabilityStateView::Unavailable {
                reason: reason@,
            },
        }
    }
}

impl Clone for CapabilityState {
    fn clone(&self) -> (r: Self)
        ensures
            r.deep_view() == self.deep_view(),
    {
        match self {
            CapabilityState::Available => CapabilityState::Available,
            CapabilityState::RequiresSetup { reason } => {
                CapabilityState::RequiresSetup { reason: reason.clone() }
            },
            CapabilityState::Unavailable { reason } => {
                CapabilityState::Unavailable { reason: reason.clone() }
            },
        }
    }
}

/// What can be done with a project.
#[derive(Debug, PartialEq, Eq)]
pub struct RuntimeCapabilitySet {
    pub run: CapabilityState,
    pub build: CapabilityState,
}

/// The value of a [`RuntimeCapabilitySet`].
#[verifier::ext_equal]
pub struct RuntimeCapabilitySetView {
    pub run: CapabilityStateView,
    pub build: CapabilityStateView,
}

impl DeepView for RuntimeCapabilitySet {
    type V = RuntimeCapabilitySetView;

    open spec fn deep_view(&self) -> RuntimeCapabilitySetView {
        RuntimeCapabilitySetView {
            run: self.run.deep_view(),
            build: self.build.deep_view(),
        }
    }
}

impl Clone for RuntimeCapabilitySet {
    fn clone(&self) -> (r: Self)
        ensures
            r.deep_view() == self.deep_view(),
    {
        RuntimeCapabilitySet {
            run: self.run.clone(),
            build: self.build.clone(),
        }
    }
}

/// A target of a project.
#[derive(Debug, PartialEq, Eq)]
pub struct RuntimeTarget {
    pub id: String,
    pub label: String,
}

/// The value of a [`RuntimeTarget`].
#[verifier::ext_equal]
pub struct RuntimeTargetView {
    pub id: Seq<char>,
    pub label: Seq<char>,
}

impl DeepView for RuntimeTarget {
    type V = RuntimeTargetView;

    open spec fn deep_view(&self) -> RuntimeTargetView {
        RuntimeTargetView {
            id: self.id@,
            label: self.label@,
        }
    }
}

impl Clone for RuntimeTarget {
    fn clone(&self) -> (r: Self)
        ensures
            r.deep_view() == self.deep_view(),
    {
        RuntimeTarget {
            id: self.id.clone(),
            label: self.label.clone(),
        }
    }
}

impl HasId for RuntimeTarget {
    open spec fn view_id(v: RuntimeTargetView) -> Seq<char> {
        v.id
    }

    fn id_str(&self) -> (r: &str) {
        self.id.as_str()
    }
}

/// A device that a project runs on.
#[derive(Debug, PartialEq, Eq)]
pub struct RuntimeDevice {
    pub id: String,
    pub name: String,
    pub os_version: Option<String>,
}

/// The value of a [`RuntimeDevice`].
#[verifier::ext_equal]
pub struct RuntimeDeviceView {
    pub id: Seq<char>,
    pub name: Seq<char>,
    pub os_version: Option<Seq<char>>,
}

impl DeepView for RuntimeDevice {
    type V = RuntimeDeviceView;

    open spec fn deep_view(&self) -> RuntimeDeviceView {
        RuntimeDeviceView {
            id: self.id@,
            name: self.name@,
            os_version: self.os_version.deep_view(),
        }
    }
}

impl Clone for RuntimeDevice {
    fn clone(&self) -> (r: Self)
        ensures
            r.deep_view() == self.deep_view(),
    {
        RuntimeDevice {
            id: self.id.clone(),
            name: self.name.clone(),
            os_version: opt_clone(&self.os_version),
        }
    }
}

impl HasId for RuntimeDevice {
    open spec fn view_id(v: RuntimeDeviceView) -> Seq<char> {
        v.id
    }

    fn id_str(&self) -> (r: &str) {
        self.id.as_str()
    }
}

/// A project that was detected in the workspace.
#[derive(Debug, PartialEq, Eq)]
pub struct DetectedProject {
    pub id: String,
    pub label: String,
    pub kind: ProjectKind,
    pub workspace_root: String,
    pub targets: Vec<RuntimeTarget>,
    pub devices: Vec<RuntimeDevice>,
    pub capabilities: RuntimeCapabilitySet,
}

/// The value of a [`DetectedProject`].
#[verifier::ext_equal]
pub struct DetectedProjectView {
    pub id: Seq<char>,
    pub label: Seq<char>,
    pub kind: ProjectKind,
    pub workspace_root: Seq<char>,
    pub targets: Seq<RuntimeTargetView>,
    pub devices: Seq<RuntimeDeviceView>,
    pub capabilities: RuntimeCapabilitySetView,
}

impl DeepView for DetectedProject {
    type V = DetectedProjectView;

    open spec fn deep_view(&self) -> DetectedProjectView {
        DetectedProjectView {
            id: self.id@,
            label: self.label@,
            kind: self.kind,
            workspace_root: self.workspace_root@,
            targets: self.targets.deep_view(),
            devices: self.devices.deep_view(),
            capabilities: self.capabilities.deep_view(),
        }
    }
}

impl Clone for DetectedProject {
    fn clone(&self) -> (r: Self)
        ensures
            r.deep_view() == self.deep_view(),
    {
        let r = DetectedProject {
            id: self.id.clone(),
            label: self.label.clone(),
            kind: self.kind,
            workspace_root: self.workspace_root.clone(),
            targets: self.targets.clone(),
            devices: self.devices.clone(),
            capabilities: self.capabilities.clone(),
        };
        assert(r.targets.deep_view() =~= self.targets.deep_view());
        assert(r.devices.deep_view() =~= self.devices.deep_view());
        r
    }
}

impl HasId for DetectedProject {
    open spec fn view_id(v: DetectedProjectView) -> Seq<char> {
        v.id
    }

    fn id_str(&self) -> (r: &str) {
        self.id.as_str()
    }
}

/// The projects that were detected.
#[derive(Debug, PartialEq, Eq)]
pub struct RuntimeCatalog {
    pub projects: Vec<DetectedProject>,
}

/// The value of a [`RuntimeCatalog`].
#[verifier::ext_equal]
pub struct RuntimeCatalogView {
    pub projects: Seq<DetectedProjectView>,
}

impl DeepView for RuntimeCatalog {
    type V = RuntimeCatalogView;

    open spec fn deep_view(&self) -> RuntimeCatalogView {
        RuntimeCatalogView {
            projects: self.projects.deep_view(),
        }
    }
}

impl Clone for RuntimeCatalog {
    fn clone(&self) -> (r: Self)
        ensures
            r.deep_view() == self.deep_view(),
    {
        let r = RuntimeCatalog {
            projects: self.projects.clone(),
        };
        assert(r.projects.deep_view() =~= self.projects.deep_view());
        r
    }
}

/// Why nothing can be started.
#[derive(Debug, PartialEq, Eq)]
pub enum RuntimeError {
    ProjectNotFound { id: String },
    TargetNotFound { id: String },
}

/// The value of a [`RuntimeError`].
#[verifier::ext_equal]
pub enum RuntimeErrorView {
    ProjectNotFound { id: Seq<char> },
    TargetNotFound { id: Seq<char> },
}

impl DeepView for RuntimeError {
    type V = RuntimeErrorView;

    open spec fn deep_view(&self) -> RuntimeErrorView {
        match self {
            RuntimeError::ProjectNotFound { id } => RuntimeErrorView::ProjectNotFound {
                id: id@,
            },
            RuntimeError::TargetNotFound { id } => RuntimeErrorView::TargetNotFound {
                id: id@,
            },
        }
    }
}

impl Clone for RuntimeError {
    fn clone(&self) -> (r: Self)
        ensures
            r.deep_view() == self.deep_view(),
    {
        match self {
            RuntimeError::ProjectNotFound { id } => {
                RuntimeError::ProjectNotFound { id: id.clone() }
            },
            RuntimeError::TargetNotFound { id } => {
                RuntimeError::TargetNotFound { id: id.clone() }
            },
        }
    }
}

/// A build or a run to be started.
#[derive(Debug, PartialEq, Eq)]
pub struct ExecutionRequest {
    pub project_id: String,
    pub target_id: String,
    pub device_id: Option<String>,
    pub action: RuntimeAction,
}

/// The value of an [`ExecutionRequest`].
#[verifier::ext_equal]
pub struct ExecutionRequestView {
    pub project_id: Seq<char>,
    pub target_id: Seq<char>,
    pub device_id: Option<Seq<char>>,
    pub action: RuntimeAction,
}

impl DeepView for ExecutionRequest {
    type V = ExecutionRequestView;

    open spec fn deep_view(&self) -> ExecutionRequestView {
        ExecutionRequestView {
            project_id: self.project_id@,
            target_id: self.target_id@,
            device_id: self.device_id.deep_view(),
            action: self.action,
        }
    }
}

impl Clone for ExecutionRequest {
    fn clone(&self) -> (r: Self)
        ensures
            r.deep_view() == self.deep_view(),
    {
        ExecutionRequest {
            project_id: self.project_id.clone(),
            target_id: self.target_id.clone(),
            device_id: opt_clone(&self.device_id),
            action: self.action,
        }
    }
}

/// What is picked.
#[derive(Debug, PartialEq, Eq)]
pub struct RuntimeSelectionState {
    pub project_id: Option<String>,
    pub target_id: Option<String>,
    pub device_id: Option<String>,
}

/// The value of a [`RuntimeSelectionState`].
#[verifier::ext_equal]
pub struct RuntimeSelectionStateView {
    pub project_id: Option<Seq<char>>,
    pub target_id: Option<Seq<char>>,
    pub device_id: Option<Seq<char>>,
}

impl DeepView for RuntimeSelectionState {
    type V = RuntimeSelectionStateView;

    open spec fn deep_view(&self) -> RuntimeSelectionStateView {
        RuntimeSelectionStateView {
            project_id: self.project_id.deep_view(),
            target_id: self.target_id.deep_view(),
            device_id: self.device_id.deep_view(),
        }
    }
}

impl Clone for RuntimeSelectionState {
    fn clone(&self) -> (r: Self)
        ensures
            r.deep_view() == self.deep_view(),
    {
        RuntimeSelectionState {
            project_id: opt_clone(&self.project_id),
            target_id: opt_clone(&self.target_id),
            device_id: opt_clone(&self.device_id),
        }
    }
}

/// The dialog.
#[derive(Debug, PartialEq, Eq)]
pub struct RuntimeActionsModal {
    /// The projects, once they have been detected.
    pub catalog: Option<RuntimeCatalog>,
    pub selection: RuntimeSelectionState,
    pub loading: bool,
}

/// The value of a [`RuntimeActionsModal`].
#[verifier::ext_equal]
pub struct RuntimeActionsModalView {
    pub catalog: Option<RuntimeCatalogView>,
    pub selection: RuntimeSelectionStateView,
    pub loading: bool,
}

impl DeepView for RuntimeActionsModal {
    type V = RuntimeActionsModalView;

    open spec fn deep_view(&self) -> RuntimeActionsModalView {
        RuntimeActionsModalView {
            catalog: self.catalog.deep_view(),
            selection: self.selection.deep_view(),
            loading: self.loading,
        }
    }
}

impl Clone for RuntimeActionsModal {
    fn clone(&self) -> (r: Self)
        ensures
            r.deep_view() == self.deep_view(),
    {
        RuntimeActionsModal {
            catalog: self.catalog.clone(),
            selection: self.selection.clone(),
            loading: self.loading,
        }
    }
}

/// What comes of pressing a button.
#[derive(Debug, PartialEq, Eq)]
pub enum RunDecision {
    Ignored,
    /// The user is told of the error.
    Failed { error: RuntimeError },
    Launch { request: ExecutionRequest },
}

/// The value of a [`RunDecision`].
#[verifier::ext_equal]
pub enum RunDecisionView {
    Ignored,
    Failed { error: RuntimeErrorView },
    Launch { request: ExecutionRequestView },
}

impl DeepView for RunDecision {
    type V = RunDecisionView;

    open spec fn deep_view(&self) -> RunDecisionView {
        match self {
            RunDecision::Ignored => RunDecisionView::Ignored,
            RunDecision::Failed { error } => RunDecisionView::Failed {
                error: error.deep_view(),
            },
            RunDecision::Launch { request } => RunDecisionView::Launch {
                request: request.deep_view(),
            },
        }
    }
}

impl Clone for RunDecision {
    fn clone(&self) -> (r: Self)
        ensures
            r.deep_view() == self.deep_view(),
    {
        match self {
            RunDecision::Ignored => RunDecision::Ignored,
            RunDecision::Failed { error } => {
                RunDecision::Failed { error: error.clone() }
            },
            RunDecision::Launch { request } => {
                RunDecision::Launch { request: request.clone() }
            },
        }
    }
}

/// What comes of a launch.
#[derive(Debug, PartialEq, Eq)]
pub enum LaunchOutcome {
    /// The dialog closes.
    Dismiss,
    ShowError { message: String },
}

/// The value of a [`LaunchOutcome`].
#[verifier::ext_equal]
pub enum LaunchOutcomeView {
    Dismiss,
    ShowError { message: Seq<char> },
}

impl DeepView for LaunchOutcome {
    type V = LaunchOutcomeView;

    open spec fn deep_view(&self) -> LaunchOutcomeView {
        match self {
            LaunchOutcome::Dismiss => LaunchOutcomeView::Dismiss,
            LaunchOutcome::ShowError { message } => LaunchOutcomeView::ShowError {
                message: message@,
            },
        }
    }
}

impl Clone for LaunchOutcome {
    fn clone(&self) -> (r: Self)
        ensures
            r.deep_view() == self.deep_view(),
    {
        match self {
            LaunchOutcome::Dismiss => LaunchOutcome::Dismiss,
            LaunchOutcome::ShowError { message } => {
                LaunchOutcome::ShowError { message: message.clone() }
            },
        }
    }
}

/// An entry of a dropdown.
#[derive(Debug, PartialEq, Eq)]
pub struct DropdownEntry {
    pub id: String,
    pub label: String,
    pub selected: bool,
}

/// The value of a [`DropdownEntry`].
#[verifier::ext_equal]
pub struct DropdownEntryView {
    pub id: Seq<char>,
    pub label: Seq<char>,
    pub selected: bool,
}

impl DeepView for DropdownEntry {
    type V = DropdownEntryView;

    open spec fn deep_view(&self) -> DropdownEntryView {
        DropdownEntryView {
            id: self.id@,
            label: self.label@,
            selected: self.selected,
        }
    }
}

impl Clone for DropdownEntry {
    fn clone(&self) -> (r: Self)
        ensures
            r.deep_view() == self.deep_view(),
    {
        DropdownEntry {
            id: self.id.clone(),
            label: self.label.clone(),
            selected: self.selected,
        }
    }
}

/// A dropdown.
#[derive(Debug, PartialEq, Eq)]
pub struct Dropdown {
    pub label: String,
    pub entries: Vec<DropdownEntry>,
    pub disabled: bool,
}

/// The value of a [`Dropdown`].
#[verifier::ext_equal]
pub struct DropdownView {
    pub label: Seq<char>,
    pub entries: Seq<DropdownEntryView>,
    pub disabled: bool,
}

impl DeepView for Dropdown {
    type V = DropdownView;

    open spec fn deep_view(&self) -> DropdownView {
        DropdownView {
            label: self.label@,
            entries: self.entries.deep_view(),
            disabled: self.disabled,
        }
    }
}

impl Clone for Dropdown {
    fn clone(&self) -> (r: Self)
        ensures
            r.deep_view() == self.deep_view(),
    {
        let r = Dropdown {
            label: self.label.clone(),
            entries: self.entries.clone(),
            disabled: self.disabled,
        };
        assert(r.entries.deep_view() =~= self.entries.deep_view());
        r
    }
}

/// What is said of the picked project.
#[derive(Debug, PartialEq, Eq)]
pub enum SelectionDetails {
    Message { text: String },
    Project { label: String, subtitle: String, build_line: String, run_line: String },
}

/// The value of a [`SelectionDetails`].
#[verifier::ext_equal]
pub enum SelectionDetailsView {
    Message { text: Seq<char> },
    Project { label: Seq<char>, subtitle: Seq<char>, build_line: Seq<char>, run_line: Seq<char> },
}

impl DeepView for SelectionDetails {
    type V = SelectionDetailsView;

    open spec fn deep_view(&self) -> SelectionDetailsView {
        match self {
            SelectionDetails::Message { text } => SelectionDetailsView::Message {
                text: text@,
            },
            SelectionDetails::Project { label, subtitle, build_line, run_line } => SelectionDetailsView::Project {
                label: label@,
                subtitle: subtitle@,
                build_line: build_line@,
                run_line: run_line@,
            },
        }
    }
}

impl Clone for SelectionDetails {
    fn clone(&self) -> (r: Self)
        ensures
            r.deep_view() == self.deep_view(),
    {
        match self {
            SelectionDetails::Message { text } => {
                SelectionDetails::Message { text: text.clone() }
            },
            SelectionDetails::Project { label, subtitle, build_line, run_line } => {
                SelectionDetails::Project { label: label.clone(), subtitle: subtitle.clone(), build_line: build_line.clone(), run_line: run_line.clone() }
            },
        }
    }
}

/// The foot of the dialog.
#[derive(Debug, PartialEq, Eq)]
pub struct FooterModel {
    pub message: String,
    pub color: Color,
    pub build_disabled: bool,
    pub run_disabled: bool,
}

/// The value of a [`FooterModel`].
#[verifier::ext_equal]
pub struct FooterModelView {
    pub message: Seq<char>,
    pub color: Color,
    pub build_disabled: bool,
    pub run_disabled: bool,
}

impl DeepView for FooterModel {
    type V = FooterModelView;

    open spec fn deep_view(&self) -> FooterModelView {
        FooterModelView {
            message: self.message@,
            color: self.color,
            build_disabled: self.build_disabled,
            run_disabled: self.run_disabled,
        }
    }
}

impl Clone for FooterModel {
    fn clone(&self) -> (r: Self)
        ensures
            r.deep_view() == self.deep_view(),
    {
        FooterModel {
            message: self.message.clone(),
            color: self.color,
            build_disabled: self.build_disabled,
            run_disabled: self.run_disabled,
        }
    }
}

/// Nothing picked.
pub open spec fn no_selection() -> RuntimeSelectionStateView {
    RuntimeSelectionStateView { project_id: None, target_id: None, device_id: None }
}

/// A project with its first target and its first device.
pub open spec fn project_selection(project: DetectedProjectView) -> RuntimeSelectionStateView {
    RuntimeSelectionStateView {
        project_id: Some(project.id),
        target_id: first_id::<RuntimeTarget>(project.targets),
        device_id: first_id::<RuntimeDevice>(project.devices),
    }
}

/// What is picked when the projects have been detected: the first of them.
pub open spec fn initial_selection(catalog: RuntimeCatalogView) -> RuntimeSelectionStateView {
    if catalog.projects.len() == 0 {
        no_selection()
    } else {
        project_selection(catalog.projects[0])
    }
}

/// The project that is picked.
pub open spec fn project_of(
    catalog: RuntimeCatalogView,
    selection: RuntimeSelectionStateView,
) -> Option<DetectedProjectView> {
    selected_of::<DetectedProject>(catalog.projects, selection.project_id)
}

/// What is picked after a project was chosen. One that is not there changes nothing.
pub open spec fn with_project(
    catalog: RuntimeCatalogView,
    selection: RuntimeSelectionStateView,
    project_id: Seq<char>,
) -> RuntimeSelectionStateView {
    match first_with_id::<DetectedProject>(catalog.projects, project_id) {
        Some(project) => project_selection(project),
        None => selection,
    }
}

/// What is picked after a target was chosen: a device goes with it where none was picked. A target
/// that the project does not have changes nothing.
pub open spec fn with_target(
    project: DetectedProjectView,
    selection: RuntimeSelectionStateView,
    target_id: Seq<char>,
) -> RuntimeSelectionStateView {
    if has_id::<RuntimeTarget>(project.targets, target_id) {
        RuntimeSelectionStateView {
            target_id: Some(target_id),
            device_id: match selection.device_id {
                Some(device_id) => Some(device_id),
                None => first_id::<RuntimeDevice>(project.devices),
            },
            ..selection
        }
    } else {
        selection
    }
}

/// How a capability is put into words.
pub open spec fn capability_text(label: Seq<char>, capability: CapabilityStateView) -> Seq<char> {
    match capability {
        CapabilityStateView::Available => label + ": available"@,
        CapabilityStateView::RequiresSetup { reason } => label + ": "@ + reason,
        CapabilityStateView::Unavailable { reason } => label + ": "@ + reason,
    }
}

/// What a kind of project is called.
pub open spec fn kind_label(kind: ProjectKind) -> Seq<char> {
    match kind {
        ProjectKind::AppleWorkspace => "Apple workspace"@,
        ProjectKind::AppleProject => "Apple project"@,
        ProjectKind::GpuiApplication => "GPUI app"@,
    }
}

/// The project that is picked in the dialog.
pub open spec fn modal_project(modal: RuntimeActionsModalView) -> Option<DetectedProjectView> {
    match modal.catalog {
        Some(catalog) => project_of(catalog, modal.selection),
        None => None,
    }
}

/// The target that is picked in the dialog.
pub open spec fn modal_target(modal: RuntimeActionsModalView) -> Option<RuntimeTargetView> {
    match modal_project(modal) {
        Some(project) => selected_of::<RuntimeTarget>(project.targets, modal.selection.target_id),
        None => None,
    }
}

/// The device that is picked in the dialog.
pub open spec fn modal_device(modal: RuntimeActionsModalView) -> Option<RuntimeDeviceView> {
    match modal_project(modal) {
        Some(project) => selected_of::<RuntimeDevice>(project.devices, modal.selection.device_id),
        None => None,
    }
}

/// The request for an action, or what is missing for it.
pub open spec fn request_of(modal: RuntimeActionsModalView, action: RuntimeAction) -> Result<
    ExecutionRequestView,
    RuntimeErrorView,
> {
    match (modal_project(modal), modal_target(modal)) {
        (None, _) => Err(RuntimeErrorView::ProjectNotFound { id: "selected-project"@ }),
        (Some(_), None) => Err(RuntimeErrorView::TargetNotFound { id: "selected-target"@ }),
        (Some(project), Some(target)) => Ok(
            ExecutionRequestView {
                project_id: project.id,
                target_id: target.id,
                device_id: match (action, modal_device(modal)) {
                    (RuntimeAction::Run, Some(device)) => Some(device.id),
                    _ => None,
                },
                action,
            },
        ),
    }
}

/// Whether the project can do the action.
pub open spec fn capability_for(
    project: DetectedProjectView,
    action: RuntimeAction,
) -> CapabilityStateView {
    match action {
        RuntimeAction::Build => project.capabilities.build,
        RuntimeAction::Run => project.capabilities.run,
    }
}

/// Why the picked project cannot do the action now.
pub open spec fn reason_against(modal: RuntimeActionsModalView, action: RuntimeAction) -> Option<
    Seq<char>,
> {
    match modal_project(modal) {
        None => None,
        Some(project) => if modal_target(modal) is None {
            Some("Choose a target."@)
        } else {
            match capability_for(project, action) {
                CapabilityStateView::Available => if action == RuntimeAction::Run && modal_device(
                    modal,
                ) is None {
                    Some("Choose a device."@)
                } else {
                    None
                },
                CapabilityStateView::RequiresSetup { reason } => Some(reason),
                CapabilityStateView::Unavailable { reason } => Some(reason),
            }
        },
    }
}

/// What comes of pressing the button of an action.
pub open spec fn run_decision(
    modal: RuntimeActionsModalView,
    action: RuntimeAction,
) -> RunDecisionView {
    if reason_against(modal, action) is Some {
        RunDecisionView::Ignored
    } else {
        match request_of(modal, action) {
            Ok(request) => RunDecisionView::Launch { request },
            Err(error) => RunDecisionView::Failed { error },
        }
    }
}

/// The name of a device, with the version of its system.
pub open spec fn device_label(device: RuntimeDeviceView) -> Seq<char> {
    match device.os_version {
        Some(version) => device.name + " ("@ + version + ")"@,
        None => device.name,
    }
}

/// The projects to pick from.
pub open spec fn modal_projects(modal: RuntimeActionsModalView) -> Seq<DetectedProjectView> {
    match modal.catalog {
        Some(catalog) => catalog.projects,
        None => Seq::empty(),
    }
}

/// The dropdown of projects.
pub open spec fn project_dropdown(modal: RuntimeActionsModalView) -> DropdownView {
    DropdownView {
        label: match modal_project(modal) {
            Some(project) => project.label,
            None => "Select project"@,
        },
        entries: modal_projects(modal).map_values(
            |project: DetectedProjectView|
                DropdownEntryView {
                    id: project.id,
                    label: project.label,
                    selected: modal.selection.project_id == Some(project.id),
                },
        ),
        disabled: modal.loading || modal_projects(modal).len() == 0,
    }
}

/// The targets to pick from.
pub open spec fn modal_targets(modal: RuntimeActionsModalView) -> Seq<RuntimeTargetView> {
    match modal_project(modal) {
        Some(project) => project.targets,
        None => Seq::empty(),
    }
}

/// The dropdown of targets.
pub open spec fn target_dropdown(modal: RuntimeActionsModalView) -> DropdownView {
    DropdownView {
        label: match modal_target(modal) {
            Some(target) => target.label,
            None => "Select target"@,
        },
        entries: modal_targets(modal).map_values(
            |target: RuntimeTargetView|
                DropdownEntryView {
                    id: target.id,
                    label: target.label,
                    selected: modal.selection.target_id == Some(target.id),
                },
        ),
        disabled: modal.loading || modal_targets(modal).len() == 0,
    }
}

/// The devices to pick from.
pub open spec fn modal_devices(modal: RuntimeActionsModalView) -> Seq<RuntimeDeviceView> {
    match modal_project(modal) {
        Some(project) => project.devices,
        None => Seq::empty(),
    }
}

/// The dropdown of devices.
pub open spec fn device_dropdown(modal: RuntimeActionsModalView) -> DropdownView {
    DropdownView {
        label: match modal_device(modal) {
            Some(device) => device_label(device),
            None => "Select device"@,
        },
        entries: modal_devices(modal).map_values(
            |device: RuntimeDeviceView|
                DropdownEntryView {
                    id: device.id,
                    label: device_label(device),
                    selected: modal.selection.device_id == Some(device.id),
                },
        ),
        disabled: modal.loading || modal_devices(modal).len() == 0,
    }
}

/// What is said of the picked project.
pub open spec fn details_of(modal: RuntimeActionsModalView) -> SelectionDetailsView {
    match modal_project(modal) {
        None => SelectionDetailsView::Message {
            text: if modal.loading {
                "Detecting runtime capabilities…"@
            } else {
                "No runnable project was detected in this workspace."@
            },
        },
        Some(project) => SelectionDetailsView::Project {
            label: project.label,
            subtitle: kind_label(project.kind) + " · "@ + project.workspace_root,
            build_line: capability_text("Build"@, project.capabilities.build),
            run_line: capability_text("Run"@, project.capabilities.run),
        },
    }
}

/// The foot of the dialog.
pub open spec fn footer_of(modal: RuntimeActionsModalView) -> FooterModelView {
    let build_reason = reason_against(modal, RuntimeAction::Build);
    let run_reason = reason_against(modal, RuntimeAction::Run);
    FooterModelView {
        message: match (run_reason, build_reason) {
            (Some(reason), _) => reason,
            (None, Some(reason)) => reason,
            (None, None) => "Ready to build or run."@,
        },
        color: if run_reason is Some || build_reason is Some {
            Color::Muted
        } else {
            Color::Success
        },
        build_disabled: modal.loading || build_reason is Some,
        run_disabled: modal.loading || run_reason is Some,
    }
}

/// What is picked when the projects have been detected.
pub fn choose_initial_selection(catalog: &RuntimeCatalog) -> (r: RuntimeSelectionState)
    ensures
        r.deep_view() == initial_selection(catalog.deep_view()),
{
    if catalog.projects.len() == 0 {
        RuntimeSelectionState { project_id: None, target_id: None, device_id: None }
    } else {
        selection_for_project(&catalog.projects[0])
    }
}

/// A project with its first target and its first device.
pub fn selection_for_project(project: &DetectedProject) -> (r: RuntimeSelectionState)
    ensures
        r.deep_view() == project_selection(project.deep_view()),
{
    RuntimeSelectionState {
        project_id: Some(project.id.clone()),
        target_id: id_of_first(&project.targets),
        device_id: id_of_first(&project.devices),
    }
}

/// The project that is picked.
pub fn selected_project<'a>(
    catalog: &'a RuntimeCatalog,
    selection: &RuntimeSelectionState,
) -> (r: Option<&'a DetectedProject>)
    ensures
        match r {
            Some(project) => project_of(catalog.deep_view(), selection.deep_view()) == Some(
                project.deep_view(),
            ),
            None => project_of(catalog.deep_view(), selection.deep_view()) is None,
        },
{
    find_selected(&catalog.projects, &selection.project_id)
}

/// Picks a project.
pub fn select_project(
    catalog: &RuntimeCatalog,
    selection: &mut RuntimeSelectionState,
    project_id: String,
)
    ensures
        final(selection).deep_view() == with_project(
            catalog.deep_view(),
            old(selection).deep_view(),
            project_id@,
        ),
{
    if let Some(project) = find_by_id(&catalog.projects, project_id.as_str()) {
        *selection = selection_for_project(project);
    }
}

/// Picks a target of a project.
pub fn select_target(
    project: &DetectedProject,
    selection: &mut RuntimeSelectionState,
    target_id: String,
)
    ensures
        final(selection).deep_view() == with_target(
            project.deep_view(),
            old(selection).deep_view(),
            target_id@,
        ),
{
    if find_by_id(&project.targets, target_id.as_str()).is_some() {
        selection.target_id = Some(target_id);
        if selection.device_id.is_none() {
            selection.device_id = id_of_first(&project.devices);
        }
    }
}

/// How a capability is put into words.
pub fn capability_line(label: &str, capability: &CapabilityState) -> (r: String)
    ensures
        r@ == capability_text(label@, capability.deep_view()),
{
    match capability {
        CapabilityState::Available => cat2(label, ": available"),
        CapabilityState::RequiresSetup { reason } => cat3(label, ": ", reason.as_str()),
        CapabilityState::Unavailable { reason } => cat3(label, ": ", reason.as_str()),
    }
}

/// What a kind of project is called.
pub fn project_kind_label(kind: ProjectKind) -> (r: &'static str)
    ensures
        r@ == kind_label(kind),
{
    match kind {
        ProjectKind::AppleWorkspace => "Apple workspace",
        ProjectKind::AppleProject => "Apple project",
        ProjectKind::GpuiApplication => "GPUI app",
    }
}

/// What comes of a launch that was tried.
pub fn finish_action(launched: bool) -> (r: LaunchOutcome)
    ensures
        r.deep_view() == (if launched {
            LaunchOutcomeView::Dismiss
        } else {
            LaunchOutcomeView::ShowError { message: "Could not start the runtime action."@ }
        }),
{
    if launched {
        LaunchOutcome::Dismiss
    } else {
        LaunchOutcome::ShowError { message: "Could not start the runtime action.".to_owned() }
    }
}

fn label_of_device(device: &RuntimeDevice) -> (r: String)
    ensures
        r@ == device_label(device.deep_view()),
{
    match &device.os_version {
        Some(version) => cat4(device.name.as_str(), " (", version.as_str(), ")"),
        None => device.name.clone(),
    }
}

impl RuntimeActionsModal {
    /// The dialog while the projects are detected.
    pub fn new() -> (r: Self)
        ensures
            r.deep_view() == (RuntimeActionsModalView {
                catalog: None,
                selection: no_selection(),
                loading: true,
            }),
    {
        RuntimeActionsModal {
            catalog: None,
            selection: RuntimeSelectionState { project_id: None, target_id: None, device_id: None },
            loading: true,
        }
    }

    /// Takes in the projects that were detected.
    pub fn finish_loading(&mut self, catalog: RuntimeCatalog)
        ensures
            final(self).deep_view() == (RuntimeActionsModalView {
                catalog: Some(catalog.deep_view()),
                selection: initial_selection(catalog.deep_view()),
                loading: false,
            }),
    {
        self.loading = false;
        self.selection = choose_initial_selection(&catalog);
        self.catalog = Some(catalog);
    }

    /// The project that is picked.
    pub fn selected_project(&self) -> (r: Option<&DetectedProject>)
        ensures
            match r {
                Some(project) => modal_project(self.deep_view()) == Some(project.deep_view()),
                None => modal_project(self.deep_view()) is None,
            },
    {
        match &self.catalog {
            Some(catalog) => selected_project(catalog, &self.selection),
            None => None,
        }
    }

    /// The target that is picked.
    pub fn selected_target(&self) -> (r: Option<&RuntimeTarget>)
        ensures
            match r {
                Some(target) => modal_target(self.deep_view()) == Some(target.deep_view()),
                None => modal_target(self.deep_view()) is None,
            },
    {
        match self.selected_project() {
            Some(project) => find_selected(&project.targets, &self.selection.target_id),
            None => None,
        }
    }

    /// The device that is picked.
    pub fn selected_device(&self) -> (r: Option<&RuntimeDevice>)
        ensures
            match r {
                Some(device) => modal_device(self.deep_view()) == Some(device.deep_view()),
                None => modal_device(self.deep_view()) is None,
            },
    {
        match self.selected_project() {
            Some(project) => find_selected(&project.devices, &self.selection.device_id),
            None => None,
        }
    }

    /// Picks a project. Says whether there is anything new to draw.
    pub fn select_project(&mut self, project_id: String) -> (r: bool)
        ensures
            match old(self).deep_view().catalog {
                Some(catalog) => {
                    &&& final(self).deep_view() == (RuntimeActionsModalView {
                        selection: with_project(
                            catalog,
                            old(self).deep_view().selection,
                            project_id@,
                        ),
                        ..old(self).deep_view()
                    })
                    &&& r
                },
                None => final(self).deep_view() == old(self).deep_view() && !r,
            },
    {
        match &self.catalog {
            Some(catalog) => {
                select_project(catalog, &mut self.selection, project_id);
                true
            },
            None => false,
        }
    }

    /// Picks a target. Says whether there is anything new to draw.
    pub fn select_target(&mut self, target_id: String) -> (r: bool)
        ensures
            match modal_project(old(self).deep_view()) {
                Some(project) => {
                    &&& final(self).deep_view() == (RuntimeActionsModalView {
                        selection: with_target(
                            project,
                            old(self).deep_view().selection,
                            target_id@,
                        ),
                        ..old(self).deep_view()
                    })
                    &&& r
                },
                None => final(self).deep_view() == old(self).deep_view() && !r,
            },
    {
        let project = match self.selected_project() {
            Some(project) => project.clone(),
            None => {
                return false;
            },
        };
        select_target(&project, &mut self.selection, target_id);
        true
    }

    /// Picks a device.
    pub fn select_device(&mut self, device_id: String)
        ensures
            final(self).deep_view() == (RuntimeActionsModalView {
                selection: RuntimeSelectionStateView {
                    device_id: Some(device_id@),
                    ..old(self).deep_view().selection
                },
                ..old(self).deep_view()
            }),
    {
        self.selection.device_id = Some(device_id);
    }

    /// The request for an action, or what is missing for it.
    pub fn action_request(&self, action: RuntimeAction) -> (r: Result<
        ExecutionRequest,
        RuntimeError,
    >)
        ensures
            match r {
                Ok(request) => request_of(self.deep_view(), action) == Ok::<
                    ExecutionRequestView,
                    RuntimeErrorView,
                >(request.deep_view()),
                Err(error) => request_of(self.deep_view(), action) == Err::<
                    ExecutionRequestView,
                    RuntimeErrorView,
                >(error.deep_view()),
            },
    {
        let project = match self.selected_project() {
            Some(project) => project,
            None => {
                return Err(RuntimeError::ProjectNotFound { id: "selected-project".to_owned() });
            },
        };
        let target = match self.selected_target() {
            Some(target) => target,
            None => {
                return Err(RuntimeError::TargetNotFound { id: "selected-target".to_owned() });
            },
        };
        let device_id = match action {
            RuntimeAction::Build => None,
            RuntimeAction::Run => match self.selected_device() {
                Some(device) => Some(device.id.clone()),
                None => None,
            },
        };
        Ok(
            ExecutionRequest {
                project_id: project.id.clone(),
                target_id: target.id.clone(),
                device_id,
                action,
            },
        )
    }

    /// Why the picked project cannot do the action now.
    pub fn action_reason(&self, action: RuntimeAction) -> (r: Option<String>)
        ensures
            r.deep_view() == reason_against(self.deep_view(), action),
    {
        let project = match self.selected_project() {
            Some(project) => project,
            None => {
                return None;
            },
        };
        if self.selected_target().is_none() {
            return Some("Choose a target.".to_owned());
        }
        let capability = match action {
            RuntimeAction::Build => &project.capabilities.build,
            RuntimeAction::Run => &project.capabilities.run,
        };
        match capability {
            CapabilityState::Available => {
                if action == RuntimeAction::Run && self.selected_device().is_none() {
                    Some("Choose a device.".to_owned())
                } else {
                    None
                }
            },
            CapabilityState::RequiresSetup { reason } => Some(reason.clone()),
            CapabilityState::Unavailable { reason } => Some(reason.clone()),
        }
    }

    /// What comes of pressing the button of an action.
    pub fn run_action(&self, action: RuntimeAction) -> (r: RunDecision)
        ensures
            r.deep_view() == run_decision(self.deep_view(), action),
    {
        if self.action_reason(action).is_some() {
            return RunDecision::Ignored;
        }
        match self.action_request(action) {
            Ok(request) => RunDecision::Launch { request },
            Err(error) => RunDecision::Failed { error },
        }
    }

    /// The dropdown of projects.
    pub fn render_project_dropdown(&self) -> (r: Dropdown)
        ensures
            r.deep_view() == project_dropdown(self.deep_view()),
    {
        let label = match self.selected_project() {
            Some(project) => project.label.clone(),
            None => "Select project".to_owned(),
        };
        let mut entries: Vec<DropdownEntry> = Vec::new();
        let ghost all = project_dropdown(self.deep_view()).entries;
        if let Some(catalog) = &self.catalog {
            let mut i: usize = 0;
            while i < catalog.projects.len()
                invariant
                    i <= catalog.projects@.len(),
                    self.catalog == Some(*catalog),
                    all == project_dropdown(self.deep_view()).entries,
                    entries@.len() == i,
                    forall|j: int| 0 <= j < i ==> (#[trigger] entries@[j]).deep_view() == all[j],
                decreases catalog.projects@.len() - i,
            {
                let project = &catalog.projects[i];
                entries.push(
                    DropdownEntry {
                        id: project.id.clone(),
                        label: project.label.clone(),
                        selected: opt_is(&self.selection.project_id, project.id.as_str()),
                    },
                );
                i = i + 1;
            }
        }
        assert(entries.deep_view() =~= all);
        let disabled = self.loading || entries.len() == 0;
        Dropdown { label, entries, disabled }
    }

    /// The dropdown of targets.
    pub fn render_target_dropdown(&self) -> (r: Dropdown)
        ensures
            r.deep_view() == target_dropdown(self.deep_view()),
    {
        let label = match self.selected_target() {
            Some(target) => target.label.clone(),
            None => "Select target".to_owned(),
        };
        let mut entries: Vec<DropdownEntry> = Vec::new();
        let ghost all = target_dropdown(self.deep_view()).entries;
        if let Some(project) = self.selected_project() {
            let mut i: usize = 0;
            while i < project.targets.len()
                invariant
                    i <= project.targets@.len(),
                    modal_project(self.deep_view()) == Some(project.deep_view()),
                    all == target_dropdown(self.deep_view()).entries,
                    entries@.len() == i,
                    forall|j: int| 0 <= j < i ==> (#[trigger] entries@[j]).deep_view() == all[j],
                decreases project.targets@.len() - i,
            {
                let target = &project.targets[i];
                entries.push(
                    DropdownEntry {
                        id: target.id.clone(),
                        label: target.label.clone(),
                        selected: opt_is(&self.selection.target_id, target.id.as_str()),
                    },
                );
                i = i + 1;
            }
        }
        assert(entries.deep_view() =~= all);
        let disabled = self.loading || entries.len() == 0;
        Dropdown { label, entries, disabled }
    }

    /// The dropdown of devices.
    pub fn render_device_dropdown(&self) -> (r: Dropdown)
        ensures
            r.deep_view() == device_dropdown(self.deep_view()),
    {
        let label = match self.selected_device() {
            Some(device) => label_of_device(device),
            None => "Select device".to_owned(),
        };
        let mut entries: Vec<DropdownEntry> = Vec::new();
        let ghost all = device_dropdown(self.deep_view()).entries;
        if let Some(project) = self.selected_project() {
            let mut i: usize = 0;
            while i < project.devices.len()
                invariant
                    i <= project.devices@.len(),
                    modal_project(self.deep_view()) == Some(project.deep_view()),
                    all == device_dropdown(self.deep_view()).entries,
                    entries@.len() == i,
                    forall|j: int| 0 <= j < i ==> (#[trigger] entries@[j]).deep_view() == all[j],
                decreases project.devices@.len() - i,
            {
                let device = &project.devices[i];
                entries.push(
                    DropdownEntry {
                        id: device.id.clone(),
                        label: label_of_device(device),
                        selected: opt_is(&self.selection.device_id, device.id.as_str()),
                    },
                );
                i = i + 1;
            }
        }
        assert(entries.deep_view() =~= all);
        let disabled = self.loading || entries.len() == 0;
        Dropdown { label, entries, disabled }
    }

    /// What is said of the picked project.
    pub fn render_selection_details(&self) -> (r: SelectionDetails)
        ensures
            r.deep_view() == details_of(self.deep_view()),
    {
        match self.selected_project() {
            None => SelectionDetails::Message {
                text: if self.loading {
                    "Detecting runtime capabilities…".to_owned()
                } else {
                    "No runnable project was detected in this workspace.".to_owned()
                },
            },
            Some(project) => SelectionDetails::Project {
                label: project.label.clone(),
                subtitle: cat3(
                    project_kind_label(project.kind),
                    " · ",
                    project.workspace_root.as_str(),
                ),
                build_line: capability_line("Build", &project.capabilities.build),
                run_line: capability_line("Run", &project.capabilities.run),
            },
        }
    }

    /// The foot of the dialog.
    pub fn render_footer(&self) -> (r: FooterModel)
        ensures
            r.deep_view() == footer_of(self.deep_view()),
    {
        let build_reason = self.action_reason(RuntimeAction::Build);
        let run_reason = self.action_reason(RuntimeAction::Run);
        let build_refused = build_reason.is_some();
        let run_refused = run_reason.is_some();
        let message = match (run_reason, build_reason) {
            (Some(reason), _) => reason,
            (None, Some(reason)) => reason,
            (None, None) => "Ready to build or run.".to_owned(),
        };
        FooterModel {
            message,
            color: if run_refused || build_refused {
                Color::Muted
            } else {
                Color::Success
            },
            build_disabled: self.loading || build_refused,
            run_disabled: self.loading || run_refused,
        }
    }
}

/// What is picked is there: the project is one of the catalog, and the target and the device are
/// its own.
pub open spec fn selection_valid(
    catalog: RuntimeCatalogView,
    selection: RuntimeSelectionStateView,
) -> bool {
    match project_of(catalog, selection) {
        Some(project) => {
            &&& selection.target_id is Some ==> selected_of::<RuntimeTarget>(
                project.targets,
                selection.target_id,
            ) is Some
            &&& selection.device_id is Some ==> selected_of::<RuntimeDevice>(
                project.devices,
                selection.device_id,
            ) is Some
        },
        None => selection == no_selection(),
    }
}

/// A project is picked with a target and a device of its own, wherever it has any.
pub proof fn lemma_project_selection_is_complete(
    catalog: RuntimeCatalogView,
    project: DetectedProjectView,
)
    requires
        first_with_id::<DetectedProject>(catalog.projects, project.id) == Some(project),
    ensures
        selection_valid(catalog, project_selection(project)),
        project_of(catalog, project_selection(project)) == Some(project),
        project.targets.len() > 0 ==> project_selection(project).target_id is Some,
        project.devices.len() > 0 ==> project_selection(project).device_id is Some,
{
    if project.targets.len() > 0 {
        lemma_member_has_id::<RuntimeTarget>(project.targets, project.targets[0]);
    }
    if project.devices.len() > 0 {
        lemma_member_has_id::<RuntimeDevice>(project.devices, project.devices[0]);
    }
}

/// The dialog opens with what is there picked.
pub proof fn lemma_initial_selection_is_valid(catalog: RuntimeCatalogView)
    ensures
        selection_valid(catalog, initial_selection(catalog)),
        catalog.projects.len() > 0 ==> project_of(catalog, initial_selection(catalog)) == Some(
            catalog.projects[0],
        ),
        catalog.projects.len() == 0 ==> initial_selection(catalog) == no_selection(),
{
    if catalog.projects.len() > 0 {
        lemma_project_selection_is_complete(catalog, catalog.projects[0]);
    }
}

/// Picking a project, a target or a device from what is offered keeps everything that is picked
/// there.
pub proof fn lemma_picking_keeps_selection_valid(
    catalog: RuntimeCatalogView,
    selection: RuntimeSelectionStateView,
    id: Seq<char>,
)
    requires
        selection_valid(catalog, selection),
    ensures
        selection_valid(catalog, with_project(catalog, selection, id)),
        project_of(catalog, selection) matches Some(project) ==> selection_valid(
            catalog,
            with_target(project, selection, id),
        ) && (has_id::<RuntimeDevice>(project.devices, id) ==> selection_valid(
            catalog,
            RuntimeSelectionStateView { device_id: Some(id), ..selection },
        )),
{
    if let Some(project) = first_with_id::<DetectedProject>(catalog.projects, id) {
        lemma_first_with_id::<DetectedProject>(catalog.projects, id);
        lemma_project_selection_is_complete(catalog, project);
    }
    if let Some(project) = project_of(catalog, selection) {
        let after = with_target(project, selection, id);
        assert(project_of(catalog, after) == Some(project));
        if project.devices.len() > 0 {
            lemma_member_has_id::<RuntimeDevice>(project.devices, project.devices[0]);
        }
        let picked = RuntimeSelectionStateView { device_id: Some(id), ..selection };
        assert(project_of(catalog, picked) == Some(project));
    }
}

/// Picking a target leaves the device that was picked, and picks one where none was.
pub proof fn lemma_target_keeps_device(
    project: DetectedProjectView,
    selection: RuntimeSelectionStateView,
    target_id: Seq<char>,
)
    ensures
        ({
            let after = with_target(project, selection, target_id);
            &&& selection.device_id is Some ==> after.device_id == selection.device_id
            &&& has_id::<RuntimeTarget>(project.targets, target_id) ==> after.target_id == Some(
                target_id,
            ) && (project.devices.len() > 0 ==> after.device_id is Some)
            &&& after.project_id == selection.project_id
        }),
{
}

/// A button that is not greyed out does what it says once a project is picked: what is launched is
/// the action for the picked project and target, on the picked device where it is a run and on none
/// where it is a build.
pub proof fn lemma_enabled_button_launches(modal: RuntimeActionsModalView, action: RuntimeAction)
    requires
        modal_project(modal) is Some,
        action == RuntimeAction::Build ==> !footer_of(modal).build_disabled,
        action == RuntimeAction::Run ==> !footer_of(modal).run_disabled,
    ensures
        run_decision(modal, action) matches RunDecisionView::Launch { request } && request.action
            == action && Some(request.project_id) == modal.selection.project_id && Some(
            request.target_id,
        ) == modal.selection.target_id && request.device_id == (match action {
            RuntimeAction::Build => None,
            RuntimeAction::Run => modal.selection.device_id,
        }),
        capability_for(modal_project(modal).unwrap(), action) is Available,
        action == RuntimeAction::Run ==> modal.selection.device_id is Some,
{
    let catalog = modal.catalog.unwrap();
    let project = modal_project(modal).unwrap();
    lemma_first_with_id::<DetectedProject>(
        catalog.projects,
        modal.selection.project_id.unwrap(),
    );
    lemma_first_with_id::<RuntimeTarget>(project.targets, modal.selection.target_id.unwrap());
    if action == RuntimeAction::Run {
        lemma_first_with_id::<RuntimeDevice>(project.devices, modal.selection.device_id.unwrap());
    }
}

/// Where a reason stands against an action, nothing is started, and the reason is shown.
pub proof fn lemma_reason_blocks_action(modal: RuntimeActionsModalView, action: RuntimeAction)
    requires
        reason_against(modal, action) is Some,
    ensures
        run_decision(modal, action) is Ignored,
        footer_of(modal).color == Color::Muted,
        action == RuntimeAction::Run ==> footer_of(modal).run_disabled && Some(
            footer_of(modal).message,
        ) == reason_against(modal, action),
        action == RuntimeAction::Build ==> footer_of(modal).build_disabled,
{
}

/// The catalog with every project of the kind.
pub open spec fn with_kind(catalog: RuntimeCatalogView, kind: ProjectKind) -> RuntimeCatalogView {
    RuntimeCatalogView {
        projects: catalog.projects.map_values(
            |project: DetectedProjectView| DetectedProjectView { kind, ..project },
        ),
    }
}

proof fn lemma_kind_does_not_find(
    projects: Seq<DetectedProjectView>,
    kind: ProjectKind,
    id: Seq<char>,
)
    ensures
        first_with_id::<DetectedProject>(
            projects.map_values(
                |project: DetectedProjectView| DetectedProjectView { kind, ..project },
            ),
            id,
        ) == (match first_with_id::<DetectedProject>(projects, id) {
            Some(project) => Some(DetectedProjectView { kind, ..project }),
            None => None,
        }),
    decreases projects.len(),
{
    let change = |project: DetectedProjectView| DetectedProjectView { kind, ..project };
    if projects.len() > 0 {
        lemma_kind_does_not_find(projects.drop_first(), kind, id);
        assert(projects.map_values(change).drop_first() =~= projects.drop_first().map_values(
            change,
        ));
    }
}

/// What can be done follows from what a project is capable of, never from what kind it is.
pub proof fn lemma_decisions_follow_capabilities(
    modal: RuntimeActionsModalView,
    kind: ProjectKind,
    action: RuntimeAction,
)
    requires
        modal.catalog is Some,
    ensures
        ({
            let other = RuntimeActionsModalView {
                catalog: Some(with_kind(modal.catalog.unwrap(), kind)),
                ..modal
            };
            &&& reason_against(other, action) == reason_against(modal, action)
            &&& run_decision(other, action) == run_decision(modal, action)
            &&& footer_of(other) == footer_of(modal)
        }),
{
    if let Some(id) = modal.selection.project_id {
        lemma_kind_does_not_find(modal.catalog.unwrap().projects, kind, id);
    }
}

/// Without a project no action is launched.
pub proof fn lemma_nothing_launches_without_project(
    modal: RuntimeActionsModalView,
    action: RuntimeAction,
)
    requires
        modal_project(modal) is None,
    ensures
        run_decision(modal, action) is Failed,
        request_of(modal, action) matches Err(RuntimeErrorView::ProjectNotFound { .. }),
{
}

} // verus!
