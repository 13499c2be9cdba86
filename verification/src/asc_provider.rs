//! The App Store Connect pages: what has been loaded, what is selected, and what follows from
//! what the user does.

use crate::appearance::Severity;
use crate::asc_apps::{AscAppSummary, AscAppSummaryView, APP_STORE_CONNECT_PROVIDER_ID};
use crate::asc_auth::{AscAuthSummary, AscAuthSummaryView};
use crate::asc_builds::{app_resource, builds_page_request, builds_page_request_of};
use crate::asc_builds::{no_builds, resource_of_app, AscBuildListState, AscBuildListStateView};
use crate::asc_builds::{AscBuildPage, AscBuildPageView, AscBuildSummary, AscBuildSummaryView};
use crate::hub::{workflow_supports, ServiceAuthActionRequest, ServiceAuthActionRequestView};
use crate::hub::{ServiceNavigationItem, ServiceOperationRequest, ServiceOperationRequestView};
use crate::hub::{ServiceProviderDescriptor, ServiceProviderDescriptorView};
use crate::hub::{ServiceResourceKindView, ServiceRunDescriptor, ServiceRunDescriptorView};
use crate::hub::{ServiceRunState, ServiceTargetDescriptorView};
use crate::hub::{ServiceWorkflowDescriptor, ServiceWorkflowDescriptorView, ServiceWorkflowKind};
use crate::hub::{ServiceWorkflowRequest, ServiceWorkflowRequestView};
use crate::input::ServiceInput;
use crate::load_state::{fetched, LoadState, LoadStateView};
use crate::lookup::{contains_string, find_by_id, find_selected, first_with_id, has_id};
use crate::lookup::{keep_or_first, kept_or_first};
use crate::lookup::selected_of;
use crate::service_auth::{authenticate_request, blank_form, closed_form, entered, logout_request};
use crate::service_auth::{shown, toggled, ServiceAuthFieldStateView, ServiceAuthFormState};
use crate::service_auth::{ServiceAuthFormStateView, ServiceAuthStatusSummary};
use crate::service_auth::{ServiceAuthStatusSummaryView, ServiceAuthUiAction};
use crate::service_auth::{ServiceAuthUiActionView, ServiceAuthUiModel, ServiceAuthUiModelView};
use crate::service_auth::ToggleState;
use crate::service_workflow::{ServiceWorkflowOption, ServiceWorkflowOptionView};
use crate::service_workflow::{ServiceWorkflowRunSummary, ServiceWorkflowRunSummaryView};
use crate::service_workflow::{ServiceWorkflowUiAction, ServiceWorkflowUiActionView};
use crate::service_workflow::{ServiceWorkflowUiModel, ServiceWorkflowUiModelView};
use crate::services_provider::{ServiceResourceMenuEntry, ServiceResourceMenuEntryView};
use crate::services_provider::{ServiceResourceMenuModel, ServiceResourceMenuModelView};
use crate::services_provider::{ServicesPageState, ServicesPageStateView};
use crate::text::{cat2, cat5, opt_clone, opt_eq, opt_is, split, split_of, str_eq, strings_clone};
use crate::text::{trim, trimmed};
use vstd::prelude::*;
use vstd::string::*;

verus! {

/// The App Store Connect pages.
#[derive(Debug)]
pub struct AppStoreConnectWorkspaceProvider {
    pub descriptor: ServiceProviderDescriptor,
    pub auth_form: ServiceAuthFormState,
    pub latest_run: Option<ServiceRunDescriptor>,
    pub auth_state: LoadState<AscAuthSummary>,
    pub apps_state: LoadState<Vec<AscAppSummary>>,
    pub builds_state: LoadState<AscBuildListState>,
}

/// The value of an [`AppStoreConnectWorkspaceProvider`].
#[verifier::ext_equal]
pub struct AppStoreConnectWorkspaceProviderView {
    pub descriptor: ServiceProviderDescriptorView,
    pub auth_form: ServiceAuthFormStateView,
    pub latest_run: Option<ServiceRunDescriptorView>,
    pub auth_state: LoadStateView<AscAuthSummaryView>,
    pub apps_state: LoadStateView<Seq<AscAppSummaryView>>,
    pub builds_state: LoadStateView<AscBuildListStateView>,
}

impl DeepView for AppStoreConnectWorkspaceProvider {
    type V = AppStoreConnectWorkspaceProviderView;

    open spec fn deep_view(&self) -> AppStoreConnectWorkspaceProviderView {
        AppStoreConnectWorkspaceProviderView {
            descriptor: self.descriptor.deep_view(),
            auth_form: self.auth_form.deep_view(),
            latest_run: self.latest_run.deep_view(),
            auth_state: self.auth_state.deep_view(),
            apps_state: self.apps_state.deep_view(),
            builds_state: self.builds_state.deep_view(),
        }
    }
}

/// A page of builds to be fetched.
#[derive(Debug, PartialEq, Eq)]
pub struct BuildsFetch {
    pub app_id: String,
    /// Where the page stands; the first page has no place.
    pub next_page_url: Option<String>,
    pub request: ServiceOperationRequest,
}

/// The value of a [`BuildsFetch`].
#[verifier::ext_equal]
pub struct BuildsFetchView {
    pub app_id: Seq<char>,
    pub next_page_url: Option<Seq<char>>,
    pub request: ServiceOperationRequestView,
}

impl DeepView for BuildsFetch {
    type V = BuildsFetchView;

    open spec fn deep_view(&self) -> BuildsFetchView {
        BuildsFetchView {
            app_id: self.app_id@,
            next_page_url: self.next_page_url.deep_view(),
            request: self.request.deep_view(),
        }
    }
}

impl Clone for BuildsFetch {
    fn clone(&self) -> (r: Self)
        ensures
            r.deep_view() == self.deep_view(),
    {
        BuildsFetch {
            app_id: self.app_id.clone(),
            next_page_url: opt_clone(&self.next_page_url),
            request: self.request.clone(),
        }
    }
}

/// What becomes of the form of a workflow.
#[derive(Debug, PartialEq, Eq)]
pub enum WorkflowFormUpdate {
    Unchanged,
    SetError { workflow_id: String, error: String },
    SetText { workflow_id: String, field_key: String, text: String },
    SetToggle { workflow_id: String, field_key: String, value: ToggleState },
    FinishSuccess { workflow_id: String },
}

/// The value of a [`WorkflowFormUpdate`].
#[verifier::ext_equal]
pub enum WorkflowFormUpdateView {
    Unchanged,
    SetError { workflow_id: Seq<char>, error: Seq<char> },
    SetText { workflow_id: Seq<char>, field_key: Seq<char>, text: Seq<char> },
    SetToggle { workflow_id: Seq<char>, field_key: Seq<char>, value: ToggleState },
    FinishSuccess { workflow_id: Seq<char> },
}

impl DeepView for WorkflowFormUpdate {
    type V = WorkflowFormUpdateView;

    open spec fn deep_view(&self) -> WorkflowFormUpdateView {
        match self {
            WorkflowFormUpdate::Unchanged => WorkflowFormUpdateView::Unchanged,
            WorkflowFormUpdate::SetError { workflow_id, error } => WorkflowFormUpdateView::SetError {
                workflow_id: workflow_id@,
                error: error@,
            },
            WorkflowFormUpdate::SetText { workflow_id, field_key, text } => WorkflowFormUpdateView::SetText {
                workflow_id: workflow_id@,
                field_key: field_key@,
                text: text@,
            },
            WorkflowFormUpdate::SetToggle { workflow_id, field_key, value } => WorkflowFormUpdateView::SetToggle {
                workflow_id: workflow_id@,
                field_key: field_key@,
                value: *value,
            },
            WorkflowFormUpdate::FinishSuccess { workflow_id } => WorkflowFormUpdateView::FinishSuccess {
                workflow_id: workflow_id@,
            },
        }
    }
}

impl Clone for WorkflowFormUpdate {
    fn clone(&self) -> (r: Self)
        ensures
            r.deep_view() == self.deep_view(),
    {
        match self {
            WorkflowFormUpdate::Unchanged => WorkflowFormUpdate::Unchanged,
            WorkflowFormUpdate::SetError { workflow_id, error } => {
                WorkflowFormUpdate::SetError { workflow_id: workflow_id.clone(), error: error.clone() }
            },
            WorkflowFormUpdate::SetText { workflow_id, field_key, text } => {
                WorkflowFormUpdate::SetText { workflow_id: workflow_id.clone(), field_key: field_key.clone(), text: text.clone() }
            },
            WorkflowFormUpdate::SetToggle { workflow_id, field_key, value } => {
                WorkflowFormUpdate::SetToggle { workflow_id: workflow_id.clone(), field_key: field_key.clone(), value: *value }
            },
            WorkflowFormUpdate::FinishSuccess { workflow_id } => {
                WorkflowFormUpdate::FinishSuccess { workflow_id: workflow_id.clone() }
            },
        }
    }
}

/// What comes of submitting a workflow.
#[derive(Debug, PartialEq, Eq)]
pub enum WorkflowSubmission {
    /// Nothing is selected that could be run.
    Ignored,
    /// The form is not filled in. Its error is shown.
    Rejected { workflow_id: String, error: String },
    /// The form is marked as pending, its error goes, and the request is run.
    Started { workflow_id: String, target_id: Option<String>, workflow_label: String, request: ServiceWorkflowRequest },
}

/// The value of a [`WorkflowSubmission`].
#[verifier::ext_equal]
pub enum WorkflowSubmissionView {
    Ignored,
    Rejected { workflow_id: Seq<char>, error: Seq<char> },
    Started { workflow_id: Seq<char>, target_id: Option<Seq<char>>, workflow_label: Seq<char>, request: ServiceWorkflowRequestView },
}

impl DeepView for WorkflowSubmission {
    type V = WorkflowSubmissionView;

    open spec fn deep_view(&self) -> WorkflowSubmissionView {
        match self {
            WorkflowSubmission::Ignored => WorkflowSubmissionView::Ignored,
            WorkflowSubmission::Rejected { workflow_id, error } => WorkflowSubmissionView::Rejected {
                workflow_id: workflow_id@,
                error: error@,
            },
            WorkflowSubmission::Started { workflow_id, target_id, workflow_label, request } => WorkflowSubmissionView::Started {
                workflow_id: workflow_id@,
                target_id: target_id.deep_view(),
                workflow_label: workflow_label@,
                request: request.deep_view(),
            },
        }
    }
}

impl Clone for WorkflowSubmission {
    fn clone(&self) -> (r: Self)
        ensures
            r.deep_view() == self.deep_view(),
    {
        match self {
            WorkflowSubmission::Ignored => WorkflowSubmission::Ignored,
            WorkflowSubmission::Rejected { workflow_id, error } => {
                WorkflowSubmission::Rejected { workflow_id: workflow_id.clone(), error: error.clone() }
            },
            WorkflowSubmission::Started { workflow_id, target_id, workflow_label, request } => {
                WorkflowSubmission::Started { workflow_id: workflow_id.clone(), target_id: opt_clone(target_id), workflow_label: workflow_label.clone(), request: request.clone() }
            },
        }
    }
}

/// What is left to do after a user has worked the controls of the workflows.
#[derive(Debug, PartialEq, Eq)]
pub enum WorkflowUiEffect {
    Nothing,
    Redraw,
    /// The form changes and the page is drawn again.
    UpdateForm { update: WorkflowFormUpdate },
    /// The input of the form is collected and the workflow submitted with it.
    BuildInput { workflow_id: String },
    /// The error of the form goes and the user is asked for a file.
    PromptForFile { workflow_id: String, field_key: String },
}

/// The value of a [`WorkflowUiEffect`].
#[verifier::ext_equal]
pub enum WorkflowUiEffectView {
    Nothing,
    Redraw,
    UpdateForm { update: WorkflowFormUpdateView },
    BuildInput { workflow_id: Seq<char> },
    PromptForFile { workflow_id: Seq<char>, field_key: Seq<char> },
}

impl DeepView for WorkflowUiEffect {
    type V = WorkflowUiEffectView;

    open spec fn deep_view(&self) -> WorkflowUiEffectView {
        match self {
            WorkflowUiEffect::Nothing => WorkflowUiEffectView::Nothing,
            WorkflowUiEffect::Redraw => WorkflowUiEffectView::Redraw,
            WorkflowUiEffect::UpdateForm { update } => WorkflowUiEffectView::UpdateForm {
                update: update.deep_view(),
            },
            WorkflowUiEffect::BuildInput { workflow_id } => WorkflowUiEffectView::BuildInput {
                workflow_id: workflow_id@,
            },
            WorkflowUiEffect::PromptForFile { workflow_id, field_key } => WorkflowUiEffectView::PromptForFile {
                workflow_id: workflow_id@,
                field_key: field_key@,
            },
        }
    }
}

impl Clone for WorkflowUiEffect {
    fn clone(&self) -> (r: Self)
        ensures
            r.deep_view() == self.deep_view(),
    {
        match self {
            WorkflowUiEffect::Nothing => WorkflowUiEffect::Nothing,
            WorkflowUiEffect::Redraw => WorkflowUiEffect::Redraw,
            WorkflowUiEffect::UpdateForm { update } => {
                WorkflowUiEffect::UpdateForm { update: update.clone() }
            },
            WorkflowUiEffect::BuildInput { workflow_id } => {
                WorkflowUiEffect::BuildInput { workflow_id: workflow_id.clone() }
            },
            WorkflowUiEffect::PromptForFile { workflow_id, field_key } => {
                WorkflowUiEffect::PromptForFile { workflow_id: workflow_id.clone(), field_key: field_key.clone() }
            },
        }
    }
}

/// What is left to do after a user has worked the controls of the sign-in.
#[derive(Debug, PartialEq, Eq)]
pub enum AuthUiEffect {
    Nothing,
    Redraw,
    /// The page is drawn again and the request is run.
    Run { request: ServiceAuthActionRequest },
    /// The user is asked for a file.
    PromptForFile { field_key: String },
}

/// The value of an [`AuthUiEffect`].
#[verifier::ext_equal]
pub enum AuthUiEffectView {
    Nothing,
    Redraw,
    Run { request: ServiceAuthActionRequestView },
    PromptForFile { field_key: Seq<char> },
}

impl DeepView for AuthUiEffect {
    type V = AuthUiEffectView;

    open spec fn deep_view(&self) -> AuthUiEffectView {
        match self {
            AuthUiEffect::Nothing => AuthUiEffectView::Nothing,
            AuthUiEffect::Redraw => AuthUiEffectView::Redraw,
            AuthUiEffect::Run { request } => AuthUiEffectView::Run {
                request: request.deep_view(),
            },
            AuthUiEffect::PromptForFile { field_key } => AuthUiEffectView::PromptForFile {
                field_key: field_key@,
            },
        }
    }
}

impl Clone for AuthUiEffect {
    fn clone(&self) -> (r: Self)
        ensures
            r.deep_view() == self.deep_view(),
    {
        match self {
            AuthUiEffect::Nothing => AuthUiEffect::Nothing,
            AuthUiEffect::Redraw => AuthUiEffect::Redraw,
            AuthUiEffect::Run { request } => {
                AuthUiEffect::Run { request: request.clone() }
            },
            AuthUiEffect::PromptForFile { field_key } => {
                AuthUiEffect::PromptForFile { field_key: field_key.clone() }
            },
        }
    }
}

/// The apps that have been loaded.
pub open spec fn apps_of(p: AppStoreConnectWorkspaceProviderView) -> Seq<AscAppSummaryView> {
    match p.apps_state {
        LoadStateView::Ready(apps) => apps,
        _ => Seq::empty(),
    }
}

/// The app that is selected.
pub open spec fn selected_app_of(
    p: AppStoreConnectWorkspaceProviderView,
    s: ServicesPageStateView,
) -> Option<AscAppSummaryView> {
    selected_of::<AscAppSummary>(apps_of(p), s.selected_resource_id)
}

/// The newest build that has been loaded.
pub open spec fn selected_build_of(p: AppStoreConnectWorkspaceProviderView) -> Option<
    AscBuildSummaryView,
> {
    match p.builds_state {
        LoadStateView::Ready(list) => if list.builds.len() == 0 {
            None
        } else {
            Some(list.builds[0])
        },
        _ => None,
    }
}

/// The workflows that the section offers: the release section those that release, any other
/// section none.
pub open spec fn navigation_workflows_of(
    p: AppStoreConnectWorkspaceProviderView,
    s: ServicesPageStateView,
) -> Seq<ServiceWorkflowDescriptorView> {
    p.descriptor.workflows.filter(
        |workflow: ServiceWorkflowDescriptorView|
            s.navigation_id == "release"@ && workflow.kind == ServiceWorkflowKind::Release,
    )
}

/// One of `workflows` lists the target.
pub open spec fn lists_target(
    workflows: Seq<ServiceWorkflowDescriptorView>,
    target_id: Seq<char>,
) -> bool {
    exists|i: int| 0 <= i < workflows.len() && (#[trigger] workflows[i]).target_ids.contains(target_id)
}

/// A target as an option.
pub open spec fn option_of_target(target: ServiceTargetDescriptorView) -> ServiceWorkflowOptionView {
    ServiceWorkflowOptionView { id: target.id, label: target.label, detail: target.detail }
}

/// A workflow as an option.
pub open spec fn option_of_workflow(
    workflow: ServiceWorkflowDescriptorView,
) -> ServiceWorkflowOptionView {
    ServiceWorkflowOptionView {
        id: workflow.id,
        label: workflow.label,
        detail: Some(workflow.detail),
    }
}

/// The targets of the provider that one of `workflows` lists.
pub open spec fn available_targets_of(
    p: AppStoreConnectWorkspaceProviderView,
    workflows: Seq<ServiceWorkflowDescriptorView>,
) -> Seq<ServiceWorkflowOptionView> {
    p.descriptor.targets.filter(
        |target: ServiceTargetDescriptorView| lists_target(workflows, target.id),
    ).map_values(|target: ServiceTargetDescriptorView| option_of_target(target))
}

/// The workflows of the section that run against the selected target.
pub open spec fn available_workflows_of(
    p: AppStoreConnectWorkspaceProviderView,
    s: ServicesPageStateView,
) -> Seq<ServiceWorkflowOptionView> {
    navigation_workflows_of(p, s).filter(
        |workflow: ServiceWorkflowDescriptorView| workflow_supports(workflow, s.selected_target_id),
    ).map_values(|workflow: ServiceWorkflowDescriptorView| option_of_workflow(workflow))
}

/// The workflow that is selected.
pub open spec fn selected_workflow_of(
    p: AppStoreConnectWorkspaceProviderView,
    s: ServicesPageStateView,
) -> Option<ServiceWorkflowDescriptorView> {
    selected_of::<ServiceWorkflowDescriptor>(navigation_workflows_of(p, s), s.selected_workflow_id)
}

/// There is a form for the workflow: every workflow of the provider has one.
pub open spec fn has_workflow_form(
    p: AppStoreConnectWorkspaceProviderView,
    workflow_id: Seq<char>,
) -> bool {
    has_id::<ServiceWorkflowDescriptor>(p.descriptor.workflows, workflow_id)
}

/// The selection with a target and a workflow that the section offers.
pub open spec fn normalized_workflow(
    p: AppStoreConnectWorkspaceProviderView,
    s: ServicesPageStateView,
) -> ServicesPageStateView {
    let workflows = navigation_workflows_of(p, s);
    if workflows.len() == 0 {
        ServicesPageStateView { selected_target_id: None, selected_workflow_id: None, ..s }
    } else {
        let targeted = ServicesPageStateView {
            selected_target_id: kept_or_first::<ServiceWorkflowOption>(
                available_targets_of(p, workflows),
                s.selected_target_id,
            ),
            ..s
        };
        ServicesPageStateView {
            selected_workflow_id: kept_or_first::<ServiceWorkflowOption>(
                available_workflows_of(p, targeted),
                s.selected_workflow_id,
            ),
            ..targeted
        }
    }
}

/// The selection with a section that the provider has and, once apps are loaded, an app that is
/// among them.
pub open spec fn normalized_shell(
    p: AppStoreConnectWorkspaceProviderView,
    s: ServicesPageStateView,
) -> ServicesPageStateView {
    ServicesPageStateView {
        navigation_id: if has_id::<ServiceNavigationItem>(
            p.descriptor.shell.navigation_items,
            s.navigation_id,
        ) {
            s.navigation_id
        } else {
            p.descriptor.shell.default_navigation_item_id
        },
        selected_resource_id: match p.apps_state {
            LoadStateView::Ready(apps) => kept_or_first::<AscAppSummary>(
                apps,
                s.selected_resource_id,
            ),
            _ => s.selected_resource_id,
        },
        ..s
    }
}

/// The selection that follows from `s` for what the provider offers now.
pub open spec fn normalized(
    p: AppStoreConnectWorkspaceProviderView,
    s: ServicesPageStateView,
) -> ServicesPageStateView {
    normalized_workflow(p, normalized_shell(p, s))
}

/// The pages before anything was loaded.
pub open spec fn new_provider(
    descriptor: ServiceProviderDescriptorView,
) -> AppStoreConnectWorkspaceProviderView {
    AppStoreConnectWorkspaceProviderView {
        descriptor,
        auth_form: blank_form(descriptor),
        latest_run: None,
        auth_state: LoadStateView::Loading,
        apps_state: LoadStateView::Loading,
        builds_state: LoadStateView::Ready(no_builds()),
    }
}

/// The pages while everything is fetched anew.
pub open spec fn refreshed(
    p: AppStoreConnectWorkspaceProviderView,
) -> AppStoreConnectWorkspaceProviderView {
    AppStoreConnectWorkspaceProviderView {
        auth_state: LoadStateView::Loading,
        apps_state: LoadStateView::Loading,
        builds_state: LoadStateView::Ready(no_builds()),
        latest_run: None,
        ..p
    }
}

/// The app that is selected once `apps` have come: the one selected before where it is still
/// there, else the first; none where they could not be had.
pub open spec fn app_after_refresh(
    apps: LoadStateView<Seq<AscAppSummaryView>>,
    s: ServicesPageStateView,
) -> Option<Seq<char>> {
    match apps {
        LoadStateView::Ready(apps) => kept_or_first::<AscAppSummary>(apps, s.selected_resource_id),
        _ => None,
    }
}

/// The pages once the sign-in and the apps have been fetched.
pub open spec fn refresh_finished(
    p: AppStoreConnectWorkspaceProviderView,
    s: ServicesPageStateView,
    auth: LoadStateView<AscAuthSummaryView>,
    apps: LoadStateView<Seq<AscAppSummaryView>>,
) -> AppStoreConnectWorkspaceProviderView {
    AppStoreConnectWorkspaceProviderView {
        auth_state: auth,
        apps_state: apps,
        builds_state: if app_after_refresh(apps, s) is Some {
            LoadStateView::Loading
        } else {
            LoadStateView::Ready(no_builds())
        },
        ..p
    }
}

/// The fetch of the first page of an app's builds; none for an app that is not loaded.
pub open spec fn builds_fetch(p: AppStoreConnectWorkspaceProviderView, app_id: Seq<char>) -> Option<
    BuildsFetchView,
> {
    match first_with_id::<AscAppSummary>(apps_of(p), app_id) {
        Some(app) => Some(
            BuildsFetchView {
                app_id,
                next_page_url: None,
                request: builds_page_request_of(app, None),
            },
        ),
        None => None,
    }
}

/// The pages while the builds of an app are fetched.
pub open spec fn builds_requested(
    p: AppStoreConnectWorkspaceProviderView,
    app_id: Seq<char>,
) -> AppStoreConnectWorkspaceProviderView {
    if builds_fetch(p, app_id) is Some {
        AppStoreConnectWorkspaceProviderView {
            builds_state: LoadStateView::Loading,
            latest_run: None,
            ..p
        }
    } else {
        AppStoreConnectWorkspaceProviderView { builds_state: LoadStateView::Ready(no_builds()), ..p }
    }
}

/// The selection while the builds of an app are fetched.
pub open spec fn builds_requested_state(
    p: AppStoreConnectWorkspaceProviderView,
    s: ServicesPageStateView,
    app_id: Seq<char>,
) -> ServicesPageStateView {
    if builds_fetch(p, app_id) is Some {
        ServicesPageStateView { selected_resource_id: Some(app_id), ..s }
    } else {
        s
    }
}

/// The list that starts with a page.
pub open spec fn list_of_page(page: AscBuildPageView) -> AscBuildListStateView {
    AscBuildListStateView {
        builds: page.builds,
        next_page_url: page.next_page_url,
        is_loading_more: false,
        load_more_error: None,
    }
}

/// The pages once the builds of an app have come. A reply for an app that is no longer selected
/// changes nothing.
pub open spec fn builds_finished(
    p: AppStoreConnectWorkspaceProviderView,
    s: ServicesPageStateView,
    app_id: Seq<char>,
    page: LoadStateView<AscBuildPageView>,
) -> AppStoreConnectWorkspaceProviderView {
    if s.selected_resource_id != Some(app_id) {
        p
    } else {
        AppStoreConnectWorkspaceProviderView {
            builds_state: match page {
                LoadStateView::Ready(page) => LoadStateView::Ready(list_of_page(page)),
                LoadStateView::Error(message) => LoadStateView::Error(message),
                LoadStateView::Loading => LoadStateView::Loading,
            },
            ..p
        }
    }
}

/// The fetch of the next page of builds: there has to be one, and none under way.
pub open spec fn more_builds_fetch(
    p: AppStoreConnectWorkspaceProviderView,
    s: ServicesPageStateView,
) -> Option<BuildsFetchView> {
    match (selected_app_of(p, s), p.builds_state) {
        (Some(app), LoadStateView::Ready(list)) => match list.next_page_url {
            Some(url) => if list.is_loading_more {
                None
            } else {
                Some(
                    BuildsFetchView {
                        app_id: app.id,
                        next_page_url: Some(url),
                        request: builds_page_request_of(app, Some(url)),
                    },
                )
            },
            None => None,
        },
        _ => None,
    }
}

/// The pages while the next page of builds is fetched.
pub open spec fn more_builds_requested(
    p: AppStoreConnectWorkspaceProviderView,
    s: ServicesPageStateView,
) -> AppStoreConnectWorkspaceProviderView {
    match (more_builds_fetch(p, s), p.builds_state) {
        (Some(_), LoadStateView::Ready(list)) => AppStoreConnectWorkspaceProviderView {
            builds_state: LoadStateView::Ready(
                AscBuildListStateView { is_loading_more: true, load_more_error: None, ..list },
            ),
            ..p
        },
        _ => p,
    }
}

/// A reply about the page at `next_page_url` of the builds of an app is still of use.
pub open spec fn awaits_more_builds(
    p: AppStoreConnectWorkspaceProviderView,
    s: ServicesPageStateView,
    app_id: Seq<char>,
    next_page_url: Seq<char>,
) -> bool {
    &&& s.selected_resource_id == Some(app_id)
    &&& p.builds_state matches LoadStateView::Ready(list) && list.next_page_url == Some(
        next_page_url,
    )
}

/// The list after the next page has come: longer by the builds of the page, or marked with what
/// went wrong.
pub open spec fn list_with_page(
    list: AscBuildListStateView,
    page: LoadStateView<AscBuildPageView>,
) -> AscBuildListStateView {
    match page {
        LoadStateView::Ready(page) => AscBuildListStateView {
            builds: list.builds + page.builds,
            next_page_url: page.next_page_url,
            is_loading_more: false,
            load_more_error: None,
        },
        LoadStateView::Error(message) => AscBuildListStateView {
            is_loading_more: false,
            load_more_error: Some(message),
            ..list
        },
        LoadStateView::Loading => list,
    }
}

/// The pages once the next page of builds has come.
pub open spec fn more_builds_finished(
    p: AppStoreConnectWorkspaceProviderView,
    s: ServicesPageStateView,
    app_id: Seq<char>,
    next_page_url: Seq<char>,
    page: LoadStateView<AscBuildPageView>,
) -> AppStoreConnectWorkspaceProviderView {
    match p.builds_state {
        LoadStateView::Ready(list) if awaits_more_builds(p, s, app_id, next_page_url) => {
            AppStoreConnectWorkspaceProviderView {
                builds_state: LoadStateView::Ready(list_with_page(list, page)),
                ..p
            }
        },
        _ => p,
    }
}

/// The pages with another form.
pub open spec fn with_form(
    p: AppStoreConnectWorkspaceProviderView,
    form: ServiceAuthFormStateView,
) -> AppStoreConnectWorkspaceProviderView {
    AppStoreConnectWorkspaceProviderView { auth_form: form, ..p }
}

/// The pages after the user asked to sign in.
pub open spec fn authenticate_submitted(
    p: AppStoreConnectWorkspaceProviderView,
) -> AppStoreConnectWorkspaceProviderView {
    match authenticate_request(p.auth_form, APP_STORE_CONNECT_PROVIDER_ID@) {
        Ok(_) => with_form(p, ServiceAuthFormStateView { pending: true, ..p.auth_form }),
        Err(message) => with_form(
            p,
            ServiceAuthFormStateView { error_message: Some(message), ..p.auth_form },
        ),
    }
}

/// The request that is made when the user asks to sign in.
pub open spec fn authenticate_submission(p: AppStoreConnectWorkspaceProviderView) -> Option<
    ServiceAuthActionRequestView,
> {
    match authenticate_request(p.auth_form, APP_STORE_CONNECT_PROVIDER_ID@) {
        Ok(request) => Some(request),
        Err(_) => None,
    }
}

/// The pages after the user asked to sign out.
pub open spec fn logout_submitted(
    p: AppStoreConnectWorkspaceProviderView,
) -> AppStoreConnectWorkspaceProviderView {
    if p.auth_form.logout_available {
        with_form(
            p,
            ServiceAuthFormStateView { pending: true, error_message: None, ..p.auth_form },
        )
    } else {
        p
    }
}

/// The pages once signing in or out has ended: everything is fetched anew, or the form shows what
/// went wrong.
pub open spec fn auth_finished(
    p: AppStoreConnectWorkspaceProviderView,
    outcome: Result<(), Seq<char>>,
) -> AppStoreConnectWorkspaceProviderView {
    match outcome {
        Ok(_) => refreshed(with_form(p, closed_form(p.auth_form))),
        Err(message) => with_form(
            p,
            ServiceAuthFormStateView {
                pending: false,
                error_message: Some(message),
                ..p.auth_form
            },
        ),
    }
}

/// The file that was picked: the last of those that came back.
pub open spec fn picked_path(paths: Option<Seq<Seq<char>>>) -> Option<Seq<char>> {
    match paths {
        Some(paths) => if paths.len() == 0 {
            None
        } else {
            Some(paths.last())
        },
        None => None,
    }
}

/// The pages after the user was asked for a file to sign in with.
pub open spec fn auth_file_picked(
    p: AppStoreConnectWorkspaceProviderView,
    field_key: Seq<char>,
    outcome: Result<Option<Seq<Seq<char>>>, Seq<char>>,
) -> AppStoreConnectWorkspaceProviderView {
    match outcome {
        Ok(paths) => match picked_path(paths) {
            Some(path) => with_form(
                p,
                ServiceAuthFormStateView {
                    fields: p.auth_form.fields.map_values(
                        |field: ServiceAuthFieldStateView| entered(field, field_key, path),
                    ),
                    ..p.auth_form
                },
            ),
            None => p,
        },
        Err(message) => with_form(
            p,
            ServiceAuthFormStateView { error_message: Some(message), ..p.auth_form },
        ),
    }
}

/// The workflow whose form takes a file: the selected one, where it has a form.
pub open spec fn workflow_for_file(
    p: AppStoreConnectWorkspaceProviderView,
    s: ServicesPageStateView,
) -> Option<Seq<char>> {
    match s.selected_workflow_id {
        Some(workflow_id) => if has_workflow_form(p, workflow_id) {
            Some(workflow_id)
        } else {
            None
        },
        None => None,
    }
}

/// What becomes of a workflow's form after the user was asked for a file.
pub open spec fn workflow_file_picked(
    p: AppStoreConnectWorkspaceProviderView,
    workflow_id: Seq<char>,
    field_key: Seq<char>,
    outcome: Result<Option<Seq<Seq<char>>>, Seq<char>>,
) -> WorkflowFormUpdateView {
    if !has_workflow_form(p, workflow_id) {
        WorkflowFormUpdateView::Unchanged
    } else {
        match outcome {
            Ok(paths) => match picked_path(paths) {
                Some(path) => WorkflowFormUpdateView::SetText { workflow_id, field_key, text: path },
                None => WorkflowFormUpdateView::Unchanged,
            },
            Err(error) => WorkflowFormUpdateView::SetError { workflow_id, error },
        }
    }
}

/// The pages without the run of a workflow.
pub open spec fn without_run(
    p: AppStoreConnectWorkspaceProviderView,
) -> AppStoreConnectWorkspaceProviderView {
    AppStoreConnectWorkspaceProviderView { latest_run: None, ..p }
}

/// The selection after a target was chosen.
pub open spec fn target_selected(
    p: AppStoreConnectWorkspaceProviderView,
    s: ServicesPageStateView,
    target_id: Seq<char>,
) -> ServicesPageStateView {
    if s.selected_target_id == Some(target_id) {
        s
    } else {
        normalized_workflow(
            p,
            ServicesPageStateView { selected_target_id: Some(target_id), ..s },
        )
    }
}

/// The selection after a workflow was chosen.
pub open spec fn workflow_selected(
    s: ServicesPageStateView,
    workflow_id: Seq<char>,
) -> ServicesPageStateView {
    ServicesPageStateView { selected_workflow_id: Some(workflow_id), ..s }
}

/// The run that is shown beside the workflow: the latest, where it is of the selected workflow
/// and target.
pub open spec fn shown_run(
    p: AppStoreConnectWorkspaceProviderView,
    s: ServicesPageStateView,
) -> Option<ServiceWorkflowRunSummaryView> {
    match p.latest_run {
        Some(run) => if Some(run.workflow) == s.selected_workflow_id && run.target_id
            == s.selected_target_id {
            Some(
                ServiceWorkflowRunSummaryView {
                    state: run.state,
                    headline: run.headline,
                    detail: run.detail,
                },
            )
        } else {
            None
        },
        None => None,
    }
}

/// What the controls of the workflows show; there are none where no workflow can be run.
pub open spec fn workflow_ui(
    p: AppStoreConnectWorkspaceProviderView,
    s: ServicesPageStateView,
) -> Option<ServiceWorkflowUiModelView> {
    match selected_workflow_of(p, s) {
        Some(workflow) if available_workflows_of(p, s).len() > 0 => Some(
            ServiceWorkflowUiModelView {
                provider_id: p.descriptor.id,
                target_label: "Target"@,
                selected_target_id: s.selected_target_id,
                targets: available_targets_of(p, navigation_workflows_of(p, s)),
                workflow_label: "Workflow"@,
                selected_workflow_id: s.selected_workflow_id,
                workflows: available_workflows_of(p, s),
                execute_label: "Run "@ + workflow.label,
                form_workflow_id: workflow.id,
                run: shown_run(p, s),
                disabled_reason: if selected_app_of(p, s) is None && workflow.needs_resource {
                    Some("Select an app first."@)
                } else {
                    None
                },
            },
        ),
        _ => None,
    }
}

/// The workflow that would be run if the user submitted now.
pub open spec fn submittable_workflow_of(
    p: AppStoreConnectWorkspaceProviderView,
    s: ServicesPageStateView,
) -> Option<Seq<char>> {
    match (selected_app_of(p, s), selected_workflow_of(p, s)) {
        (Some(_), Some(workflow)) => Some(workflow.id),
        _ => None,
    }
}

/// What comes of submitting the selected workflow with what was entered.
pub open spec fn submission(
    p: AppStoreConnectWorkspaceProviderView,
    s: ServicesPageStateView,
    input: Result<Map<Seq<char>, Seq<char>>, Seq<char>>,
) -> WorkflowSubmissionView {
    match (selected_app_of(p, s), selected_workflow_of(p, s)) {
        (Some(app), Some(workflow)) => match input {
            Ok(input) => WorkflowSubmissionView::Started {
                workflow_id: workflow.id,
                target_id: s.selected_target_id,
                workflow_label: workflow.label,
                request: ServiceWorkflowRequestView {
                    provider_id: APP_STORE_CONNECT_PROVIDER_ID@,
                    workflow: workflow.id,
                    target_id: s.selected_target_id,
                    resource: Some(app_resource(app)),
                    artifact: None,
                    input,
                },
            },
            Err(error) => WorkflowSubmissionView::Rejected { workflow_id: workflow.id, error },
        },
        _ => WorkflowSubmissionView::Ignored,
    }
}

/// The pages after the selected workflow was submitted: a workflow that was started is shown as
/// running.
pub open spec fn submitted(
    p: AppStoreConnectWorkspaceProviderView,
    s: ServicesPageStateView,
    input: Result<Map<Seq<char>, Seq<char>>, Seq<char>>,
) -> AppStoreConnectWorkspaceProviderView {
    match (selected_app_of(p, s), selected_workflow_of(p, s), input) {
        (Some(app), Some(workflow), Ok(_)) => AppStoreConnectWorkspaceProviderView {
            latest_run: Some(
                ServiceRunDescriptorView {
                    workflow: workflow.id,
                    target_id: s.selected_target_id,
                    state: ServiceRunState::Running,
                    headline: workflow.label,
                    detail: "Running "@ + workflow.label + " for "@ + app.name + "."@,
                    output: None,
                },
            ),
            ..p
        },
        _ => p,
    }
}

/// The last line of `lines` that says anything, without the whitespace around it.
pub open spec fn last_line(lines: Seq<Seq<char>>) -> Option<Seq<char>>
    decreases lines.len(),
{
    if lines.len() == 0 {
        None
    } else if trimmed(lines.last()).len() > 0 {
        Some(trimmed(lines.last()))
    } else {
        last_line(lines.drop_last())
    }
}

/// What a workflow's output comes down to.
pub open spec fn workflow_output_summary(output: Seq<char>) -> Seq<char> {
    match last_line(split_of(output, '\n')) {
        Some(line) => line,
        None => "Workflow completed successfully."@,
    }
}

/// The run of a workflow that has ended.
pub open spec fn ended_run(
    workflow_id: Seq<char>,
    target_id: Option<Seq<char>>,
    workflow_label: Seq<char>,
    outcome: Result<Seq<char>, Seq<char>>,
) -> ServiceRunDescriptorView {
    match outcome {
        Ok(output) => ServiceRunDescriptorView {
            workflow: workflow_id,
            target_id,
            state: ServiceRunState::Succeeded,
            headline: workflow_label + " finished"@,
            detail: workflow_output_summary(output),
            output: None,
        },
        Err(error) => ServiceRunDescriptorView {
            workflow: workflow_id,
            target_id,
            state: ServiceRunState::Failed,
            headline: workflow_label + " failed"@,
            detail: error,
            output: None,
        },
    }
}

/// What becomes of a workflow's form once the workflow has ended.
pub open spec fn form_after_run(
    p: AppStoreConnectWorkspaceProviderView,
    workflow_id: Seq<char>,
    outcome: Result<Seq<char>, Seq<char>>,
) -> WorkflowFormUpdateView {
    if !has_workflow_form(p, workflow_id) {
        WorkflowFormUpdateView::Unchanged
    } else {
        match outcome {
            Ok(_) => WorkflowFormUpdateView::FinishSuccess { workflow_id },
            Err(error) => WorkflowFormUpdateView::SetError { workflow_id, error },
        }
    }
}

/// Whether the user is signed in, as it is shown.
pub open spec fn auth_status(p: AppStoreConnectWorkspaceProviderView) -> ServiceAuthStatusSummaryView {
    match p.auth_state {
        LoadStateView::Loading => ServiceAuthStatusSummaryView {
            severity: Severity::Success,
            headline: "Checking authentication…"@,
            detail: "Validating the current App Store Connect profile."@,
            warnings: Seq::empty(),
            authenticated: false,
        },
        LoadStateView::Error(error) => ServiceAuthStatusSummaryView {
            severity: Severity::Warning,
            headline: "Authentication check failed"@,
            detail: error,
            warnings: Seq::empty(),
            authenticated: false,
        },
        LoadStateView::Ready(summary) => ServiceAuthStatusSummaryView {
            severity: if summary.healthy {
                Severity::Success
            } else {
                Severity::Warning
            },
            headline: summary.headline,
            detail: summary.detail,
            warnings: summary.warnings,
            authenticated: summary.authenticated,
        },
    }
}

/// What the controls of the sign-in show.
pub open spec fn auth_ui(p: AppStoreConnectWorkspaceProviderView) -> ServiceAuthUiModelView {
    ServiceAuthUiModelView {
        provider_id: p.descriptor.id,
        authenticate_label: "Authenticate"@,
        reauthenticate_label: "Re-authenticate"@,
        logout_label: "Log Out"@,
        status: auth_status(p),
        form: p.auth_form,
    }
}

/// What the menu of apps shows for what is selected.
pub open spec fn resource_label(
    p: AppStoreConnectWorkspaceProviderView,
    s: ServicesPageStateView,
    kind: ServiceResourceKindView,
) -> Seq<char> {
    match p.apps_state {
        LoadStateView::Loading => "Loading "@ + kind.plural_label + "…"@,
        LoadStateView::Error(_) => "Select "@ + kind.singular_label,
        LoadStateView::Ready(apps) => if apps.len() == 0 {
            "No "@ + kind.plural_label
        } else {
            match selected_app_of(p, s) {
                Some(app) => app.name,
                None => "Select "@ + kind.singular_label,
            }
        },
    }
}

/// An app as an entry of the menu.
pub open spec fn entry_of_app(app: AscAppSummaryView) -> ServiceResourceMenuEntryView {
    ServiceResourceMenuEntryView { id: app.id, label: app.name, detail: Some(app.bundle_id) }
}

/// The menu of apps; a provider that names no resources has none.
pub open spec fn resource_menu_of(
    p: AppStoreConnectWorkspaceProviderView,
    s: ServicesPageStateView,
) -> Option<ServiceResourceMenuModelView> {
    match p.descriptor.shell.resource_kind {
        Some(kind) => Some(
            ServiceResourceMenuModelView {
                singular_label: kind.singular_label,
                current_label: resource_label(p, s, kind),
                entries: apps_of(p).map_values(|app: AscAppSummaryView| entry_of_app(app)),
                disabled: apps_of(p).len() == 0,
            },
        ),
        None => None,
    }
}

/// The result of a step, by its view.
pub open spec fn result_view<T: DeepView>(outcome: Result<T, String>) -> Result<T::V, Seq<char>> {
    match outcome {
        Ok(value) => Ok(value.deep_view()),
        Err(message) => Err(message@),
    }
}

/// The pages after the user has worked the controls of the workflows.
pub open spec fn after_workflow_action(
    p: AppStoreConnectWorkspaceProviderView,
    s: ServicesPageStateView,
    action: ServiceWorkflowUiActionView,
) -> AppStoreConnectWorkspaceProviderView {
    match action {
        ServiceWorkflowUiActionView::SelectTarget { target_id } => if s.selected_target_id == Some(
            target_id,
        ) {
            p
        } else {
            without_run(p)
        },
        ServiceWorkflowUiActionView::SelectWorkflow { workflow_id } => {
            if s.selected_workflow_id == Some(workflow_id) {
                p
            } else {
                without_run(p)
            }
        },
        _ => p,
    }
}

/// The selection after the user has worked the controls of the workflows.
pub open spec fn state_after_workflow_action(
    p: AppStoreConnectWorkspaceProviderView,
    s: ServicesPageStateView,
    action: ServiceWorkflowUiActionView,
) -> ServicesPageStateView {
    match action {
        ServiceWorkflowUiActionView::SelectTarget { target_id } => target_selected(p, s, target_id),
        ServiceWorkflowUiActionView::SelectWorkflow { workflow_id } => workflow_selected(
            s,
            workflow_id,
        ),
        _ => s,
    }
}

/// What is left to do after the user has worked the controls of the workflows.
pub open spec fn workflow_effect(
    p: AppStoreConnectWorkspaceProviderView,
    s: ServicesPageStateView,
    action: ServiceWorkflowUiActionView,
) -> WorkflowUiEffectView {
    match action {
        ServiceWorkflowUiActionView::SelectTarget { .. } => WorkflowUiEffectView::Redraw,
        ServiceWorkflowUiActionView::SelectWorkflow { .. } => WorkflowUiEffectView::Redraw,
        ServiceWorkflowUiActionView::Submit => match submittable_workflow_of(p, s) {
            Some(workflow_id) => WorkflowUiEffectView::BuildInput { workflow_id },
            None => WorkflowUiEffectView::Nothing,
        },
        ServiceWorkflowUiActionView::PickFile { field_key } => match workflow_for_file(p, s) {
            Some(workflow_id) => WorkflowUiEffectView::PromptForFile { workflow_id, field_key },
            None => WorkflowUiEffectView::Nothing,
        },
        ServiceWorkflowUiActionView::SetToggle { field_key, value } => {
            match workflow_for_file(p, s) {
                Some(workflow_id) => WorkflowUiEffectView::UpdateForm {
                    update: WorkflowFormUpdateView::SetToggle { workflow_id, field_key, value },
                },
                None => WorkflowUiEffectView::Redraw,
            }
        },
    }
}

/// The pages after the user has worked the controls of the sign-in.
pub open spec fn after_auth_action(
    p: AppStoreConnectWorkspaceProviderView,
    action: ServiceAuthUiActionView,
) -> AppStoreConnectWorkspaceProviderView {
    match action {
        ServiceAuthUiActionView::ShowAuthenticate => with_form(p, shown(p.auth_form)),
        ServiceAuthUiActionView::CancelAuthenticate => with_form(p, closed_form(p.auth_form)),
        ServiceAuthUiActionView::SubmitAuthenticate => authenticate_submitted(p),
        ServiceAuthUiActionView::Logout => logout_submitted(p),
        ServiceAuthUiActionView::PickFile { .. } => p,
        ServiceAuthUiActionView::SetToggle { field_key, value } => with_form(
            p,
            ServiceAuthFormStateView {
                fields: p.auth_form.fields.map_values(
                    |field: ServiceAuthFieldStateView| toggled(field, field_key, value),
                ),
                ..p.auth_form
            },
        ),
    }
}

/// What is left to do after the user has worked the controls of the sign-in.
pub open spec fn auth_effect(
    p: AppStoreConnectWorkspaceProviderView,
    action: ServiceAuthUiActionView,
) -> AuthUiEffectView {
    match action {
        ServiceAuthUiActionView::ShowAuthenticate => AuthUiEffectView::Redraw,
        ServiceAuthUiActionView::CancelAuthenticate => AuthUiEffectView::Redraw,
        ServiceAuthUiActionView::SubmitAuthenticate => match authenticate_submission(p) {
            Some(request) => AuthUiEffectView::Run { request },
            None => AuthUiEffectView::Redraw,
        },
        ServiceAuthUiActionView::Logout => match logout_request(
            p.auth_form,
            APP_STORE_CONNECT_PROVIDER_ID@,
        ) {
            Some(request) => AuthUiEffectView::Run { request },
            None => AuthUiEffectView::Nothing,
        },
        ServiceAuthUiActionView::PickFile { field_key } => AuthUiEffectView::PromptForFile {
            field_key,
        },
        ServiceAuthUiActionView::SetToggle { .. } => AuthUiEffectView::Redraw,
    }
}

/// What a workflow's output comes down to: its last line that says anything.
pub fn summarize_workflow_output(output: &str) -> (r: String)
    ensures
        r@ == workflow_output_summary(output@),
{
    let lines = split(output, '\n');
    let ghost all = lines.deep_view();
    let mut i: usize = lines.len();
    assert(all.take(i as int) =~= all);
    while i > 0
        invariant
            i <= lines@.len(),
            all == lines.deep_view(),
            all == split_of(output@, '\n'),
            last_line(all) == last_line(all.take(i as int)),
        decreases i,
    {
        let line = trim(lines[i - 1].as_str());
        assert(all.take(i as int).last() == lines@[i - 1]@);
        if !line.as_str().is_empty() {
            return line;
        }
        assert(all.take(i as int).drop_last() =~= all.take(i - 1));
        i = i - 1;
    }
    "Workflow completed successfully.".to_owned()
}

/// The pages for a provider, where it is App Store Connect.
pub fn build_app_store_connect_workspace_adapter(descriptor: ServiceProviderDescriptor) -> (r:
    Option<AppStoreConnectWorkspaceProvider>)
    ensures
        r.deep_view() == (if descriptor.deep_view().id == APP_STORE_CONNECT_PROVIDER_ID@ {
            Some(new_provider(descriptor.deep_view()))
        } else {
            None
        }),
{
    if str_eq(descriptor.id.as_str(), APP_STORE_CONNECT_PROVIDER_ID) {
        Some(AppStoreConnectWorkspaceProvider::new(descriptor))
    } else {
        None
    }
}

/// The file that was picked: the last of those that came back.
pub fn take_last_path(paths: Option<Vec<String>>) -> (r: Option<String>)
    ensures
        r.deep_view() == picked_path(paths.deep_view()),
{
    match paths {
        Some(paths) => if paths.len() == 0 {
            None
        } else {
            Some(paths[paths.len() - 1].clone())
        },
        None => None,
    }
}

impl AppStoreConnectWorkspaceProvider {
    /// The pages before anything was loaded.
    pub fn new(descriptor: ServiceProviderDescriptor) -> (r: Self)
        ensures
            r.deep_view() == new_provider(descriptor.deep_view()),
    {
        AppStoreConnectWorkspaceProvider {
            auth_form: ServiceAuthFormState::new(&descriptor),
            latest_run: None,
            descriptor,
            auth_state: LoadState::Loading,
            apps_state: LoadState::Loading,
            builds_state: LoadState::Ready(AscBuildListState::empty()),
        }
    }

    /// The provider that the pages are of.
    pub fn descriptor(&self) -> (r: &ServiceProviderDescriptor)
        ensures
            r.deep_view() == self.deep_view().descriptor,
    {
        &self.descriptor
    }

    /// Puts right what is selected, for what the provider offers now.
    pub fn normalize_state(&self, state: &mut ServicesPageState)
        ensures
            final(state).deep_view() == normalized(self.deep_view(), old(state).deep_view()),
    {
        if find_by_id(
            &self.descriptor.shell.navigation_items,
            state.navigation_id.as_str(),
        ).is_none() {
            state.navigation_id = self.descriptor.shell.default_navigation_item_id.clone();
        }
        if let LoadState::Ready(apps) = &self.apps_state {
            state.selected_resource_id = keep_or_first(apps, &state.selected_resource_id);
        }
        self.normalize_workflow_state(state);
    }

    /// Forgets what was loaded, to fetch it anew.
    pub fn refresh(&mut self)
        ensures
            final(self).deep_view() == refreshed(old(self).deep_view()),
    {
        self.auth_state = LoadState::Loading;
        self.apps_state = LoadState::Loading;
        self.builds_state = LoadState::Ready(AscBuildListState::empty());
        self.latest_run = None;
    }

    /// Takes in whether the user is signed in, and their apps. Gives back the app whose builds are
    /// to be loaded next.
    pub fn finish_refresh(
        &mut self,
        state: &mut ServicesPageState,
        auth: Result<AscAuthSummary, String>,
        apps: Result<Vec<AscAppSummary>, String>,
    ) -> (r: Option<String>)
        ensures
            final(self).deep_view() == refresh_finished(
                old(self).deep_view(),
                old(state).deep_view(),
                fetched(auth),
                fetched(apps),
            ),
            final(state).deep_view() == (ServicesPageStateView {
                selected_resource_id: app_after_refresh(fetched(apps), old(state).deep_view()),
                ..old(state).deep_view()
            }),
            r.deep_view() == app_after_refresh(fetched(apps), old(state).deep_view()),
    {
        self.auth_state = LoadState::from_result(auth);
        let next = match &apps {
            Ok(apps) => keep_or_first(apps, &state.selected_resource_id),
            Err(_) => None,
        };
        self.apps_state = LoadState::from_result(apps);
        self.builds_state = if next.is_some() {
            LoadState::Loading
        } else {
            LoadState::Ready(AscBuildListState::empty())
        };
        state.selected_resource_id = opt_clone(&next);
        next
    }

    /// The menu of apps.
    pub fn resource_menu(&self, state: &ServicesPageState) -> (r: Option<ServiceResourceMenuModel>)
        ensures
            r.deep_view() == resource_menu_of(self.deep_view(), state.deep_view()),
    {
        let kind = match &self.descriptor.shell.resource_kind {
            Some(kind) => kind,
            None => {
                return None;
            },
        };
        let current_label = match &self.apps_state {
            LoadState::Loading => {
                let mut label = cat2("Loading ", kind.plural_label.as_str());
                label.append("…");
                label
            },
            LoadState::Error(_) => cat2("Select ", kind.singular_label.as_str()),
            LoadState::Ready(apps) => if apps.len() == 0 {
                cat2("No ", kind.plural_label.as_str())
            } else {
                match find_selected(apps, &state.selected_resource_id) {
                    Some(app) => app.name.clone(),
                    None => cat2("Select ", kind.singular_label.as_str()),
                }
            },
        };
        let entries = self.app_entries();
        let disabled = entries.len() == 0;
        Some(
            ServiceResourceMenuModel {
                singular_label: kind.singular_label.clone(),
                current_label,
                entries,
                disabled,
            },
        )
    }

    fn app_entries(&self) -> (r: Vec<ServiceResourceMenuEntry>)
        ensures
            r.deep_view() == apps_of(self.deep_view()).map_values(
                |app: AscAppSummaryView| entry_of_app(app),
            ),
            r@.len() == apps_of(self.deep_view()).len(),
    {
        let mut entries: Vec<ServiceResourceMenuEntry> = Vec::new();
        let ghost all = apps_of(self.deep_view());
        if let LoadState::Ready(apps) = &self.apps_state {
            let mut i: usize = 0;
            while i < apps.len()
                invariant
                    i <= apps@.len(),
                    entries@.len() == i,
                    forall|j: int|
                        0 <= j < i ==> (#[trigger] entries@[j]).deep_view() == entry_of_app(
                            apps@[j].deep_view(),
                        ),
                decreases apps@.len() - i,
            {
                let app = &apps[i];
                entries.push(
                    ServiceResourceMenuEntry {
                        id: app.id.clone(),
                        label: app.name.clone(),
                        detail: Some(app.bundle_id.clone()),
                    },
                );
                i = i + 1;
            }
        }
        assert(entries.deep_view() =~= all.map_values(|app: AscAppSummaryView| entry_of_app(app)));
        entries
    }

    /// Selects an app and starts to load its builds, unless it is selected already.
    pub fn select_resource(&mut self, state: &mut ServicesPageState, resource_id: String) -> (r:
        Option<BuildsFetch>)
        ensures
            old(state).deep_view().selected_resource_id == Some(resource_id@) ==> {
                &&& final(self).deep_view() == old(self).deep_view()
                &&& final(state).deep_view() == old(state).deep_view()
                &&& r is None
            },
            old(state).deep_view().selected_resource_id != Some(resource_id@) ==> {
                &&& final(self).deep_view() == builds_requested(
                    old(self).deep_view(),
                    resource_id@,
                )
                &&& final(state).deep_view() == builds_requested_state(
                    old(self).deep_view(),
                    old(state).deep_view(),
                    resource_id@,
                )
                &&& r.deep_view() == builds_fetch(old(self).deep_view(), resource_id@)
            },
    {
        if opt_is(&state.selected_resource_id, resource_id.as_str()) {
            return None;
        }
        self.load_builds_for_app(state, resource_id)
    }

    /// The workflows that the section offers.
    pub fn navigation_workflows(&self, state: &ServicesPageState) -> (r: Vec<
        ServiceWorkflowDescriptor,
    >)
        ensures
            r.deep_view() == navigation_workflows_of(self.deep_view(), state.deep_view()),
    {
        let releases = str_eq(state.navigation_id.as_str(), "release");
        let mut workflows: Vec<ServiceWorkflowDescriptor> = Vec::new();
        let ghost all = self.deep_view().descriptor.workflows;
        let ghost navigation_id = state.deep_view().navigation_id;
        let ghost keep = |workflow: ServiceWorkflowDescriptorView|
            navigation_id == "release"@ && workflow.kind == ServiceWorkflowKind::Release;
        let mut i: usize = 0;
        proof {
            reveal(Seq::filter);
            assert(workflows.deep_view() =~= all.take(0).filter(keep));
        }
        while i < self.descriptor.workflows.len()
            invariant
                i <= self.descriptor.workflows@.len(),
                all == self.deep_view().descriptor.workflows,
                releases == (navigation_id == "release"@),
                keep == (|workflow: ServiceWorkflowDescriptorView|
                    navigation_id == "release"@ && workflow.kind == ServiceWorkflowKind::Release),
                workflows.deep_view() == all.take(i as int).filter(keep),
            decreases self.descriptor.workflows@.len() - i,
        {
            let ghost before = workflows.deep_view();
            let workflow = &self.descriptor.workflows[i];
            proof {
                reveal(Seq::filter);
                assert(all.take(i + 1).drop_last() =~= all.take(i as int));
                assert(all.take(i + 1).last() == workflow.deep_view());
            }
            if releases && workflow.kind == ServiceWorkflowKind::Release {
                workflows.push(workflow.clone());
                assert(workflows.deep_view() =~= before.push(workflow.deep_view()));
            }
            i = i + 1;
        }
        assert(all.take(i as int) =~= all);
        workflows
    }

    fn lists(workflows: &Vec<ServiceWorkflowDescriptor>, target_id: &str) -> (r: bool)
        ensures
            r == lists_target(workflows.deep_view(), target_id@),
    {
        let mut i: usize = 0;
        while i < workflows.len()
            invariant
                i <= workflows@.len(),
                forall|j: int|
                    0 <= j < i ==> !(#[trigger] workflows.deep_view()[j]).target_ids.contains(
                        target_id@,
                    ),
            decreases workflows@.len() - i,
        {
            if contains_string(&workflows[i].target_ids, target_id) {
                assert(workflows.deep_view()[i as int].target_ids.contains(target_id@));
                return true;
            }
            assert(workflows.deep_view()[i as int] == workflows@[i as int].deep_view());
            i = i + 1;
        }
        false
    }

    /// The targets of the provider that one of `workflows` lists.
    pub fn available_targets(&self, workflows: &Vec<ServiceWorkflowDescriptor>) -> (r: Vec<
        ServiceWorkflowOption,
    >)
        ensures
            r.deep_view() == available_targets_of(self.deep_view(), workflows.deep_view()),
    {
        let mut options: Vec<ServiceWorkflowOption> = Vec::new();
        let ghost all = self.deep_view().descriptor.targets;
        let ghost listed = workflows.deep_view();
        let ghost keep = |target: ServiceTargetDescriptorView| lists_target(listed, target.id);
        let ghost option = |target: ServiceTargetDescriptorView| option_of_target(target);
        let mut i: usize = 0;
        proof {
            reveal(Seq::filter);
            assert(options.deep_view() =~= all.take(0).filter(keep).map_values(option));
        }
        while i < self.descriptor.targets.len()
            invariant
                i <= self.descriptor.targets@.len(),
                all == self.deep_view().descriptor.targets,
                listed == workflows.deep_view(),
                keep == (|target: ServiceTargetDescriptorView| lists_target(listed, target.id)),
                option == (|target: ServiceTargetDescriptorView| option_of_target(target)),
                options.deep_view() == all.take(i as int).filter(keep).map_values(option),
            decreases self.descriptor.targets@.len() - i,
        {
            let ghost before = options.deep_view();
            let target = &self.descriptor.targets[i];
            proof {
                reveal(Seq::filter);
                assert(all.take(i + 1).drop_last() =~= all.take(i as int));
                assert(all.take(i + 1).last() == target.deep_view());
            }
            if Self::lists(workflows, target.id.as_str()) {
                options.push(
                    ServiceWorkflowOption {
                        id: target.id.clone(),
                        label: target.label.clone(),
                        detail: opt_clone(&target.detail),
                    },
                );
                assert(options.deep_view() =~= before.push(option_of_target(target.deep_view())));
                assert(options.deep_view() =~= all.take(i + 1).filter(keep).map_values(option));
            }
            i = i + 1;
        }
        assert(all.take(i as int) =~= all);
        options
    }

    /// The workflows of the section that run against the selected target.
    pub fn available_workflows(&self, state: &ServicesPageState) -> (r: Vec<ServiceWorkflowOption>)
        ensures
            r.deep_view() == available_workflows_of(self.deep_view(), state.deep_view()),
    {
        let workflows = self.navigation_workflows(state);
        let mut options: Vec<ServiceWorkflowOption> = Vec::new();
        let ghost all = workflows.deep_view();
        let ghost target = state.deep_view().selected_target_id;
        let ghost keep = |workflow: ServiceWorkflowDescriptorView|
            workflow_supports(workflow, target);
        let ghost option = |workflow: ServiceWorkflowDescriptorView| option_of_workflow(workflow);
        let mut i: usize = 0;
        proof {
            reveal(Seq::filter);
            assert(options.deep_view() =~= all.take(0).filter(keep).map_values(option));
        }
        while i < workflows.len()
            invariant
                i <= workflows@.len(),
                all == workflows.deep_view(),
                target == state.deep_view().selected_target_id,
                keep == (|workflow: ServiceWorkflowDescriptorView|
                    workflow_supports(workflow, target)),
                option == (|workflow: ServiceWorkflowDescriptorView| option_of_workflow(workflow)),
                options.deep_view() == all.take(i as int).filter(keep).map_values(option),
            decreases workflows@.len() - i,
        {
            let ghost before = options.deep_view();
            let workflow = &workflows[i];
            proof {
                reveal(Seq::filter);
                assert(all.take(i + 1).drop_last() =~= all.take(i as int));
                assert(all.take(i + 1).last() == workflow.deep_view());
            }
            if workflow.supports_target(&state.selected_target_id) {
                options.push(
                    ServiceWorkflowOption {
                        id: workflow.id.clone(),
                        label: workflow.label.clone(),
                        detail: Some(workflow.detail.clone()),
                    },
                );
                assert(options.deep_view() =~= before.push(
                    option_of_workflow(workflow.deep_view()),
                ));
                assert(options.deep_view() =~= all.take(i + 1).filter(keep).map_values(option));
            }
            i = i + 1;
        }
        assert(all.take(i as int) =~= all);
        options
    }

    /// The workflow that is selected.
    pub fn selected_workflow_descriptor(&self, state: &ServicesPageState) -> (r: Option<
        ServiceWorkflowDescriptor,
    >)
        ensures
            r.deep_view() == selected_workflow_of(self.deep_view(), state.deep_view()),
    {
        let workflows = self.navigation_workflows(state);
        match find_selected(&workflows, &state.selected_workflow_id) {
            Some(workflow) => Some(workflow.clone()),
            None => None,
        }
    }

    /// The workflow whose form is the selected one's.
    pub fn selected_workflow_form(&self, state: &ServicesPageState) -> (r: Option<String>)
        ensures
            r.deep_view() == workflow_for_file(self.deep_view(), state.deep_view()),
    {
        match &state.selected_workflow_id {
            Some(workflow_id) => if self.has_form(workflow_id.as_str()) {
                Some(workflow_id.clone())
            } else {
                None
            },
            None => None,
        }
    }

    fn has_form(&self, workflow_id: &str) -> (r: bool)
        ensures
            r == has_workflow_form(self.deep_view(), workflow_id@),
    {
        find_by_id(&self.descriptor.workflows, workflow_id).is_some()
    }

    /// Puts right which target and workflow are selected.
    pub fn normalize_workflow_state(&self, state: &mut ServicesPageState)
        ensures
            final(state).deep_view() == normalized_workflow(
                self.deep_view(),
                old(state).deep_view(),
            ),
    {
        let workflows = self.navigation_workflows(state);
        assert(workflows@.len() == workflows.deep_view().len());
        if workflows.len() == 0 {
            state.selected_target_id = None;
            state.selected_workflow_id = None;
            return;
        }
        let targets = self.available_targets(&workflows);
        state.selected_target_id = keep_or_first(&targets, &state.selected_target_id);
        let available = self.available_workflows(state);
        state.selected_workflow_id = keep_or_first(&available, &state.selected_workflow_id);
    }

    /// Selects an app and starts to load its builds.
    pub fn load_builds_for_app(&mut self, state: &mut ServicesPageState, app_id: String) -> (r:
        Option<BuildsFetch>)
        ensures
            final(self).deep_view() == builds_requested(old(self).deep_view(), app_id@),
            final(state).deep_view() == builds_requested_state(
                old(self).deep_view(),
                old(state).deep_view(),
                app_id@,
            ),
            r.deep_view() == builds_fetch(old(self).deep_view(), app_id@),
    {
        let request = match self.find_app(app_id.as_str()) {
            Some(app) => builds_page_request(app, None),
            None => {
                self.builds_state = LoadState::Ready(AscBuildListState::empty());
                return None;
            },
        };
        state.selected_resource_id = Some(app_id.clone());
        self.builds_state = LoadState::Loading;
        self.latest_run = None;
        Some(BuildsFetch { app_id, next_page_url: None, request })
    }

    fn find_app(&self, app_id: &str) -> (r: Option<&AscAppSummary>)
        ensures
            match r {
                Some(app) => first_with_id::<AscAppSummary>(apps_of(self.deep_view()), app_id@)
                    == Some(app.deep_view()),
                None => first_with_id::<AscAppSummary>(
                    apps_of(self.deep_view()),
                    app_id@,
                ) is None,
            },
    {
        match &self.apps_state {
            LoadState::Ready(apps) => find_by_id(apps, app_id),
            _ => None,
        }
    }

    /// Takes in the first page of an app's builds. Says whether there is anything new to draw.
    pub fn finish_builds(
        &mut self,
        state: &ServicesPageState,
        app_id: &str,
        page: Result<AscBuildPage, String>,
    ) -> (r: bool)
        ensures
            final(self).deep_view() == builds_finished(
                old(self).deep_view(),
                state.deep_view(),
                app_id@,
                fetched(page),
            ),
            r == (state.deep_view().selected_resource_id == Some(app_id@)),
    {
        if !opt_is(&state.selected_resource_id, app_id) {
            return false;
        }
        self.builds_state = match page {
            Ok(page) => LoadState::Ready(
                AscBuildListState {
                    builds: page.builds,
                    next_page_url: page.next_page_url,
                    is_loading_more: false,
                    load_more_error: None,
                },
            ),
            Err(message) => LoadState::Error(message),
        };
        true
    }

    /// Starts to load the builds of the selected app anew.
    pub fn refresh_builds(&mut self, state: &mut ServicesPageState) -> (r: Option<BuildsFetch>)
        ensures
            match old(state).deep_view().selected_resource_id {
                Some(app_id) => {
                    &&& final(self).deep_view() == builds_requested(old(self).deep_view(), app_id)
                    &&& final(state).deep_view() == old(state).deep_view()
                    &&& r.deep_view() == builds_fetch(old(self).deep_view(), app_id)
                },
                None => {
                    &&& final(self).deep_view() == old(self).deep_view()
                    &&& final(state).deep_view() == old(state).deep_view()
                    &&& r is None
                },
            },
    {
        match opt_clone(&state.selected_resource_id) {
            Some(app_id) => self.load_builds_for_app(state, app_id),
            None => None,
        }
    }

    /// Starts to load the next page of builds, where there is one and none is under way.
    pub fn load_more_builds(&mut self, state: &ServicesPageState) -> (r: Option<BuildsFetch>)
        ensures
            final(self).deep_view() == more_builds_requested(
                old(self).deep_view(),
                state.deep_view(),
            ),
            r.deep_view() == more_builds_fetch(old(self).deep_view(), state.deep_view()),
    {
        let app = match self.selected_app(state) {
            Some(app) => app,
            None => {
                return None;
            },
        };
        let url = match &mut self.builds_state {
            LoadState::Ready(list) => {
                if list.is_loading_more {
                    return None;
                }
                match opt_clone(&list.next_page_url) {
                    Some(url) => {
                        list.is_loading_more = true;
                        list.load_more_error = None;
                        url
                    },
                    None => {
                        return None;
                    },
                }
            },
            _ => {
                return None;
            },
        };
        let request = builds_page_request(&app, Some(url.clone()));
        Some(BuildsFetch { app_id: app.id, next_page_url: Some(url), request })
    }

    /// Takes in the next page of builds. Says whether there is anything new to draw.
    pub fn finish_load_more(
        &mut self,
        state: &ServicesPageState,
        app_id: &str,
        next_page_url: &str,
        page: Result<AscBuildPage, String>,
    ) -> (r: bool)
        ensures
            final(self).deep_view() == more_builds_finished(
                old(self).deep_view(),
                state.deep_view(),
                app_id@,
                next_page_url@,
                fetched(page),
            ),
            r == awaits_more_builds(
                old(self).deep_view(),
                state.deep_view(),
                app_id@,
                next_page_url@,
            ),
    {
        if !opt_is(&state.selected_resource_id, app_id) {
            return false;
        }
        match &mut self.builds_state {
            LoadState::Ready(list) => {
                if !opt_is(&list.next_page_url, next_page_url) {
                    return false;
                }
                list.is_loading_more = false;
                match page {
                    Ok(page) => {
                        let ghost before = list.builds.deep_view();
                        let ghost more = page.builds.deep_view();
                        let mut builds = page.builds;
                        list.builds.append(&mut builds);
                        assert(list.builds.deep_view() =~= before + more);
                        list.next_page_url = page.next_page_url;
                        list.load_more_error = None;
                    },
                    Err(message) => {
                        list.load_more_error = Some(message);
                    },
                }
                true
            },
            _ => false,
        }
    }

    /// Opens the form to sign in.
    pub fn show_authenticate_form(&mut self)
        ensures
            final(self).deep_view() == with_form(
                old(self).deep_view(),
                shown(old(self).deep_view().auth_form),
            ),
    {
        self.auth_form.show();
    }

    /// Closes the form to sign in.
    pub fn cancel_authenticate_form(&mut self)
        ensures
            final(self).deep_view() == with_form(
                old(self).deep_view(),
                closed_form(old(self).deep_view().auth_form),
            ),
    {
        self.auth_form.cancel();
    }

    /// Signs in with what was entered, or shows what is missing.
    pub fn submit_authenticate(&mut self) -> (r: Option<ServiceAuthActionRequest>)
        ensures
            final(self).deep_view() == authenticate_submitted(old(self).deep_view()),
            r.deep_view() == authenticate_submission(old(self).deep_view()),
    {
        match self.auth_form.build_authenticate_request(APP_STORE_CONNECT_PROVIDER_ID) {
            Ok(request) => {
                self.auth_form.set_pending(true);
                Some(request)
            },
            Err(error) => {
                self.auth_form.set_error(error);
                None
            },
        }
    }

    /// Signs out, where the provider offers it.
    pub fn logout(&mut self) -> (r: Option<ServiceAuthActionRequest>)
        ensures
            final(self).deep_view() == logout_submitted(old(self).deep_view()),
            r.deep_view() == logout_request(
                old(self).deep_view().auth_form,
                APP_STORE_CONNECT_PROVIDER_ID@,
            ),
    {
        match self.auth_form.build_logout_request(APP_STORE_CONNECT_PROVIDER_ID) {
            Some(request) => {
                self.auth_form.set_pending(true);
                self.auth_form.error_message = None;
                Some(request)
            },
            None => None,
        }
    }

    /// Takes in how signing in or out has ended. Says whether everything is to be fetched anew.
    pub fn finish_auth(&mut self, outcome: Result<(), String>) -> (r: bool)
        ensures
            final(self).deep_view() == auth_finished(
                old(self).deep_view(),
                match outcome {
                    Ok(_) => Ok(()),
                    Err(message) => Err(message@),
                },
            ),
            r == (outcome is Ok),
    {
        match outcome {
            Ok(_) => {
                self.auth_form.finish_success();
                self.refresh();
                true
            },
            Err(error) => {
                self.auth_form.set_pending(false);
                self.auth_form.set_error(error);
                false
            },
        }
    }

    /// Takes in the file to sign in with that the user was asked for.
    pub fn pick_auth_file(
        &mut self,
        field_key: &str,
        outcome: Result<Option<Vec<String>>, String>,
    )
        ensures
            final(self).deep_view() == auth_file_picked(
                old(self).deep_view(),
                field_key@,
                result_view(outcome),
            ),
    {
        match outcome {
            Ok(paths) => {
                if let Some(path) = take_last_path(paths) {
                    self.auth_form.set_text(field_key, path.as_str());
                }
            },
            Err(error) => {
                self.auth_form.set_error(error);
            },
        }
    }

    /// Takes in the file for a workflow that the user was asked for.
    pub fn pick_workflow_file(
        &self,
        workflow_id: &str,
        field_key: &str,
        outcome: Result<Option<Vec<String>>, String>,
    ) -> (r: WorkflowFormUpdate)
        ensures
            r.deep_view() == workflow_file_picked(
                self.deep_view(),
                workflow_id@,
                field_key@,
                result_view(outcome),
            ),
    {
        if !self.has_form(workflow_id) {
            return WorkflowFormUpdate::Unchanged;
        }
        match outcome {
            Ok(paths) => match take_last_path(paths) {
                Some(path) => WorkflowFormUpdate::SetText {
                    workflow_id: workflow_id.to_owned(),
                    field_key: field_key.to_owned(),
                    text: path,
                },
                None => WorkflowFormUpdate::Unchanged,
            },
            Err(error) => WorkflowFormUpdate::SetError {
                workflow_id: workflow_id.to_owned(),
                error,
            },
        }
    }

    /// Selects a target, and with it a workflow that runs against it.
    pub fn select_target(&mut self, state: &mut ServicesPageState, target_id: String)
        ensures
            final(state).deep_view() == target_selected(
                old(self).deep_view(),
                old(state).deep_view(),
                target_id@,
            ),
            final(self).deep_view() == after_workflow_action(
                old(self).deep_view(),
                old(state).deep_view(),
                ServiceWorkflowUiActionView::SelectTarget { target_id: target_id@ },
            ),
    {
        if opt_is(&state.selected_target_id, target_id.as_str()) {
            return;
        }
        state.selected_target_id = Some(target_id);
        self.normalize_workflow_state(state);
        self.latest_run = None;
    }

    /// Selects a workflow.
    pub fn select_workflow(&mut self, state: &mut ServicesPageState, workflow_id: String)
        ensures
            final(state).deep_view() == workflow_selected(old(state).deep_view(), workflow_id@),
            final(self).deep_view() == after_workflow_action(
                old(self).deep_view(),
                old(state).deep_view(),
                ServiceWorkflowUiActionView::SelectWorkflow { workflow_id: workflow_id@ },
            ),
    {
        if opt_is(&state.selected_workflow_id, workflow_id.as_str()) {
            return;
        }
        state.selected_workflow_id = Some(workflow_id);
        self.latest_run = None;
    }

    /// What the controls of the workflows show.
    pub fn workflow_ui_model(&self, state: &ServicesPageState) -> (r: Option<
        ServiceWorkflowUiModel,
    >)
        ensures
            r.deep_view() == workflow_ui(self.deep_view(), state.deep_view()),
    {
        let workflows = self.available_workflows(state);
        assert(workflows@.len() == workflows.deep_view().len());
        if workflows.len() == 0 {
            return None;
        }
        let descriptor = match self.selected_workflow_descriptor(state) {
            Some(descriptor) => descriptor,
            None => {
                return None;
            },
        };
        let disabled_reason = if self.selected_app(state).is_none() && descriptor.needs_resource {
            Some("Select an app first.".to_owned())
        } else {
            None
        };
        let targets = self.available_targets(&self.navigation_workflows(state));
        let run = self.run_summary(state);
        Some(
            ServiceWorkflowUiModel {
                provider_id: self.descriptor.id.clone(),
                target_label: "Target".to_owned(),
                selected_target_id: opt_clone(&state.selected_target_id),
                targets,
                workflow_label: "Workflow".to_owned(),
                selected_workflow_id: opt_clone(&state.selected_workflow_id),
                workflows,
                execute_label: cat2("Run ", descriptor.label.as_str()),
                form_workflow_id: descriptor.id,
                run,
                disabled_reason,
            },
        )
    }

    fn run_summary(&self, state: &ServicesPageState) -> (r: Option<ServiceWorkflowRunSummary>)
        ensures
            r.deep_view() == shown_run(self.deep_view(), state.deep_view()),
    {
        match &self.latest_run {
            Some(run) => if opt_is(&state.selected_workflow_id, run.workflow.as_str()) && opt_eq(
                &run.target_id,
                &state.selected_target_id,
            ) {
                Some(
                    ServiceWorkflowRunSummary {
                        state: run.state,
                        headline: run.headline.clone(),
                        detail: run.detail.clone(),
                    },
                )
            } else {
                None
            },
            None => None,
        }
    }

    /// The workflow whose input is collected when the user submits.
    pub fn submittable_workflow(&self, state: &ServicesPageState) -> (r: Option<String>)
        ensures
            r.deep_view() == submittable_workflow_of(self.deep_view(), state.deep_view()),
    {
        if self.selected_app(state).is_none() {
            return None;
        }
        match self.selected_workflow_descriptor(state) {
            Some(workflow) => Some(workflow.id),
            None => None,
        }
    }

    /// Runs the selected workflow with what was entered into its form.
    pub fn submit_workflow(
        &mut self,
        state: &ServicesPageState,
        input: Result<ServiceInput, String>,
    ) -> (r: WorkflowSubmission)
        ensures
            final(self).deep_view() == submitted(
                old(self).deep_view(),
                state.deep_view(),
                result_view(input),
            ),
            r.deep_view() == submission(
                old(self).deep_view(),
                state.deep_view(),
                result_view(input),
            ),
    {
        let app = match self.selected_app(state) {
            Some(app) => app,
            None => {
                return WorkflowSubmission::Ignored;
            },
        };
        let workflow = match self.selected_workflow_descriptor(state) {
            Some(workflow) => workflow,
            None => {
                return WorkflowSubmission::Ignored;
            },
        };
        let input = match input {
            Ok(input) => input,
            Err(error) => {
                return WorkflowSubmission::Rejected { workflow_id: workflow.id, error };
            },
        };
        let target_id = opt_clone(&state.selected_target_id);
        let request = ServiceWorkflowRequest {
            provider_id: APP_STORE_CONNECT_PROVIDER_ID.to_owned(),
            workflow: workflow.id.clone(),
            target_id: opt_clone(&target_id),
            resource: Some(resource_of_app(&app)),
            artifact: None,
            input,
        };
        self.latest_run = Some(
            ServiceRunDescriptor {
                workflow: workflow.id.clone(),
                target_id: opt_clone(&target_id),
                state: ServiceRunState::Running,
                headline: workflow.label.clone(),
                detail: cat5(
                    "Running ",
                    workflow.label.as_str(),
                    " for ",
                    app.name.as_str(),
                    ".",
                ),
                output: None,
            },
        );
        WorkflowSubmission::Started {
            workflow_id: workflow.id,
            target_id,
            workflow_label: workflow.label,
            request,
        }
    }

    /// Takes in how a workflow has ended: what it printed, or what went wrong.
    pub fn finish_workflow(
        &mut self,
        workflow_id: &str,
        target_id: &Option<String>,
        workflow_label: &str,
        outcome: Result<String, String>,
    ) -> (r: WorkflowFormUpdate)
        ensures
            final(self).deep_view() == (AppStoreConnectWorkspaceProviderView {
                latest_run: Some(
                    ended_run(
                        workflow_id@,
                        target_id.deep_view(),
                        workflow_label@,
                        result_view(outcome),
                    ),
                ),
                ..old(self).deep_view()
            }),
            r.deep_view() == form_after_run(
                old(self).deep_view(),
                workflow_id@,
                result_view(outcome),
            ),
    {
        let has_form = self.has_form(workflow_id);
        match outcome {
            Err(error) => {
                let update = if has_form {
                    WorkflowFormUpdate::SetError {
                        workflow_id: workflow_id.to_owned(),
                        error: error.clone(),
                    }
                } else {
                    WorkflowFormUpdate::Unchanged
                };
                self.latest_run = Some(
                    ServiceRunDescriptor {
                        workflow: workflow_id.to_owned(),
                        target_id: opt_clone(target_id),
                        state: ServiceRunState::Failed,
                        headline: cat2(workflow_label, " failed"),
                        detail: error,
                        output: None,
                    },
                );
                update
            },
            Ok(output) => {
                self.latest_run = Some(
                    ServiceRunDescriptor {
                        workflow: workflow_id.to_owned(),
                        target_id: opt_clone(target_id),
                        state: ServiceRunState::Succeeded,
                        headline: cat2(workflow_label, " finished"),
                        detail: summarize_workflow_output(output.as_str()),
                        output: None,
                    },
                );
                if has_form {
                    WorkflowFormUpdate::FinishSuccess { workflow_id: workflow_id.to_owned() }
                } else {
                    WorkflowFormUpdate::Unchanged
                }
            },
        }
    }

    /// The app that is selected.
    pub fn selected_app(&self, state: &ServicesPageState) -> (r: Option<AscAppSummary>)
        ensures
            r.deep_view() == selected_app_of(self.deep_view(), state.deep_view()),
    {
        match &state.selected_resource_id {
            Some(app_id) => match self.find_app(app_id.as_str()) {
                Some(app) => Some(app.clone()),
                None => None,
            },
            None => None,
        }
    }

    /// The newest build that has been loaded.
    pub fn selected_build(&self) -> (r: Option<&AscBuildSummary>)
        ensures
            match r {
                Some(build) => selected_build_of(self.deep_view()) == Some(build.deep_view()),
                None => selected_build_of(self.deep_view()) is None,
            },
    {
        match &self.builds_state {
            LoadState::Ready(list) => if list.builds.len() == 0 {
                None
            } else {
                Some(&list.builds[0])
            },
            _ => None,
        }
    }

    /// Whether the user is signed in, as it is shown.
    pub fn auth_status_summary(&self) -> (r: ServiceAuthStatusSummary)
        ensures
            r.deep_view() == auth_status(self.deep_view()),
    {
        match &self.auth_state {
            LoadState::Loading => {
                let warnings: Vec<String> = Vec::new();
                assert(warnings.deep_view() =~= Seq::empty());
                ServiceAuthStatusSummary {
                    severity: Severity::Success,
                    headline: "Checking authentication…".to_owned(),
                    detail: "Validating the current App Store Connect profile.".to_owned(),
                    warnings,
                    authenticated: false,
                }
            },
            LoadState::Error(error) => {
                let warnings: Vec<String> = Vec::new();
                assert(warnings.deep_view() =~= Seq::empty());
                ServiceAuthStatusSummary {
                    severity: Severity::Warning,
                    headline: "Authentication check failed".to_owned(),
                    detail: error.clone(),
                    warnings,
                    authenticated: false,
                }
            },
            LoadState::Ready(summary) => ServiceAuthStatusSummary {
                severity: if summary.healthy {
                    Severity::Success
                } else {
                    Severity::Warning
                },
                headline: summary.headline.clone(),
                detail: summary.detail.clone(),
                warnings: strings_clone(&summary.warnings),
                authenticated: summary.authenticated,
            },
        }
    }

    /// Does what the user does with the controls of the workflows. Says what is left to do.
    pub fn handle_workflow_ui_action(
        &mut self,
        state: &mut ServicesPageState,
        action: ServiceWorkflowUiAction,
    ) -> (r: WorkflowUiEffect)
        ensures
            final(self).deep_view() == after_workflow_action(
                old(self).deep_view(),
                old(state).deep_view(),
                action.deep_view(),
            ),
            final(state).deep_view() == state_after_workflow_action(
                old(self).deep_view(),
                old(state).deep_view(),
                action.deep_view(),
            ),
            r.deep_view() == workflow_effect(
                old(self).deep_view(),
                old(state).deep_view(),
                action.deep_view(),
            ),
    {
        match action {
            ServiceWorkflowUiAction::SelectTarget { target_id } => {
                self.select_target(state, target_id);
                WorkflowUiEffect::Redraw
            },
            ServiceWorkflowUiAction::SelectWorkflow { workflow_id } => {
                self.select_workflow(state, workflow_id);
                WorkflowUiEffect::Redraw
            },
            ServiceWorkflowUiAction::Submit => match self.submittable_workflow(state) {
                Some(workflow_id) => WorkflowUiEffect::BuildInput { workflow_id },
                None => WorkflowUiEffect::Nothing,
            },
            ServiceWorkflowUiAction::PickFile { field_key } => {
                match self.selected_workflow_form(state) {
                    Some(workflow_id) => WorkflowUiEffect::PromptForFile { workflow_id, field_key },
                    None => WorkflowUiEffect::Nothing,
                }
            },
            ServiceWorkflowUiAction::SetToggle { field_key, value } => {
                match self.selected_workflow_form(state) {
                    Some(workflow_id) => WorkflowUiEffect::UpdateForm {
                        update: WorkflowFormUpdate::SetToggle { workflow_id, field_key, value },
                    },
                    None => WorkflowUiEffect::Redraw,
                }
            },
        }
    }

    /// What the controls of the sign-in show.
    pub fn auth_ui_model(&self) -> (r: ServiceAuthUiModel)
        ensures
            r.deep_view() == auth_ui(self.deep_view()),
    {
        ServiceAuthUiModel {
            provider_id: self.descriptor.id.clone(),
            authenticate_label: "Authenticate".to_owned(),
            reauthenticate_label: "Re-authenticate".to_owned(),
            logout_label: "Log Out".to_owned(),
            status: self.auth_status_summary(),
            form: self.auth_form.clone(),
        }
    }

    /// Does what the user does with the controls of the sign-in. Says what is left to do.
    pub fn handle_auth_ui_action(&mut self, action: ServiceAuthUiAction) -> (r: AuthUiEffect)
        ensures
            final(self).deep_view() == after_auth_action(
                old(self).deep_view(),
                action.deep_view(),
            ),
            r.deep_view() == auth_effect(old(self).deep_view(), action.deep_view()),
    {
        match action {
            ServiceAuthUiAction::ShowAuthenticate => {
                self.show_authenticate_form();
                AuthUiEffect::Redraw
            },
            ServiceAuthUiAction::CancelAuthenticate => {
                self.cancel_authenticate_form();
                AuthUiEffect::Redraw
            },
            ServiceAuthUiAction::SubmitAuthenticate => match self.submit_authenticate() {
                Some(request) => AuthUiEffect::Run { request },
                None => AuthUiEffect::Redraw,
            },
            ServiceAuthUiAction::Logout => match self.logout() {
                Some(request) => AuthUiEffect::Run { request },
                None => AuthUiEffect::Nothing,
            },
            ServiceAuthUiAction::PickFile { field_key } => AuthUiEffect::PromptForFile {
                field_key,
            },
            ServiceAuthUiAction::SetToggle { field_key, value } => {
                self.auth_form.set_toggle(field_key.as_str(), value);
                AuthUiEffect::Redraw
            },
        }
    }
}

} // verus!
