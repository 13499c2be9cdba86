//! The workflows of a service as they are offered to a user.

use crate::hub::{ServiceInputDescriptor, ServiceInputDescriptorView, ServiceRunState};
use crate::lookup::HasId;
use crate::service_auth::ToggleState;
use crate::text::opt_clone;
use vstd::prelude::*;

verus! {

/// A target or a workflow to choose.
#[derive(Debug, PartialEq, Eq)]
pub struct ServiceWorkflowOption {
    pub id: String,
    pub label: String,
    pub detail: Option<String>,
}

/// The value of a [`ServiceWorkflowOption`].
#[verifier::ext_equal]
pub struct ServiceWorkflowOptionView {
    pub id: Seq<char>,
    pub label: Seq<char>,
    pub detail: Option<Seq<char>>,
}

impl DeepView for ServiceWorkflowOption {
    type V = ServiceWorkflowOptionView;

    open spec fn deep_view(&self) -> ServiceWorkflowOptionView {
        ServiceWorkflowOptionView {
            id: self.id@,
            label: self.label@,
            detail: self.detail.deep_view(),
        }
    }
}

impl Clone for ServiceWorkflowOption {
    fn clone(&self) -> (r: Self)
        ensures
            r.deep_view() == self.deep_view(),
    {
        ServiceWorkflowOption {
            id: self.id.clone(),
            label: self.label.clone(),
            detail: opt_clone(&self.detail),
        }
    }
}

impl HasId for ServiceWorkflowOption {
    open spec fn view_id(v: ServiceWorkflowOptionView) -> Seq<char> {
        v.id
    }

    fn id_str(&self) -> (r: &str) {
        self.id.as_str()
    }
}

/// How a run of a workflow stands.
#[derive(Debug, PartialEq, Eq)]
pub struct ServiceWorkflowRunSummary {
    pub state: ServiceRunState,
    pub headline: String,
    pub detail: String,
}

/// The value of a [`ServiceWorkflowRunSummary`].
#[verifier::ext_equal]
pub struct ServiceWorkflowRunSummaryView {
    pub state: ServiceRunState,
    pub headline: Seq<char>,
    pub detail: Seq<char>,
}

impl DeepView for ServiceWorkflowRunSummary {
    type V = ServiceWorkflowRunSummaryView;

    open spec fn deep_view(&self) -> ServiceWorkflowRunSummaryView {
        ServiceWorkflowRunSummaryView {
            state: self.state,
            headline: self.headline@,
            detail: self.detail@,
        }
    }
}

impl Clone for ServiceWorkflowRunSummary {
    fn clone(&self) -> (r: Self)
        ensures
            r.deep_view() == self.deep_view(),
    {
        ServiceWorkflowRunSummary {
            state: self.state,
            headline: self.headline.clone(),
            detail: self.detail.clone(),
        }
    }
}

/// What the controls of the workflows show.
#[derive(Debug, PartialEq, Eq)]
pub struct ServiceWorkflowUiModel {
    pub provider_id: String,
    pub target_label: String,
    pub selected_target_id: Option<String>,
    pub targets: Vec<ServiceWorkflowOption>,
    pub workflow_label: String,
    pub selected_workflow_id: Option<String>,
    pub workflows: Vec<ServiceWorkflowOption>,
    pub execute_label: String,
    /// The workflow whose form is shown.
    pub form_workflow_id: String,
    pub run: Option<ServiceWorkflowRunSummary>,
    pub disabled_reason: Option<String>,
}

/// The value of a [`ServiceWorkflowUiModel`].
#[verifier::ext_equal]
pub struct ServiceWorkflowUiModelView {
    pub provider_id: Seq<char>,
    pub target_label: Seq<char>,
    pub selected_target_id: Option<Seq<char>>,
    pub targets: Seq<ServiceWorkflowOptionView>,
    pub workflow_label: Seq<char>,
    pub selected_workflow_id: Option<Seq<char>>,
    pub workflows: Seq<ServiceWorkflowOptionView>,
    pub execute_label: Seq<char>,
    pub form_workflow_id: Seq<char>,
    pub run: Option<ServiceWorkflowRunSummaryView>,
    pub disabled_reason: Option<Seq<char>>,
}

impl DeepView for ServiceWorkflowUiModel {
    type V = ServiceWorkflowUiModelView;

    open spec fn deep_view(&self) -> ServiceWorkflowUiModelView {
        ServiceWorkflowUiModelView {
            provider_id: self.provider_id@,
            target_label: self.target_label@,
            selected_target_id: self.selected_target_id.deep_view(),
            targets: self.targets.deep_view(),
            workflow_label: self.workflow_label@,
            selected_workflow_id: self.selected_workflow_id.deep_view(),
            workflows: self.workflows.deep_view(),
            execute_label: self.execute_label@,
            form_workflow_id: self.form_workflow_id@,
            run: self.run.deep_view(),
            disabled_reason: self.disabled_reason.deep_view(),
        }
    }
}

impl Clone for ServiceWorkflowUiModel {
    fn clone(&self) -> (r: Self)
        ensures
            r.deep_view() == self.deep_view(),
    {
        let r = ServiceWorkflowUiModel {
            provider_id: self.provider_id.clone(),
            target_label: self.target_label.clone(),
            selected_target_id: opt_clone(&self.selected_target_id),
            targets: self.targets.clone(),
            workflow_label: self.workflow_label.clone(),
            selected_workflow_id: opt_clone(&self.selected_workflow_id),
            workflows: self.workflows.clone(),
            execute_label: self.execute_label.clone(),
            form_workflow_id: self.form_workflow_id.clone(),
            run: self.run.clone(),
            disabled_reason: opt_clone(&self.disabled_reason),
        };
        assert(r.targets.deep_view() =~= self.targets.deep_view());
        assert(r.workflows.deep_view() =~= self.workflows.deep_view());
        r
    }
}

/// What a user does with the controls of the workflows.
#[derive(Debug, PartialEq, Eq)]
pub enum ServiceWorkflowUiAction {
    SelectTarget { target_id: String },
    SelectWorkflow { workflow_id: String },
    Submit,
    PickFile { field_key: String },
    SetToggle { field_key: String, value: ToggleState },
}

/// The value of a [`ServiceWorkflowUiAction`].
#[verifier::ext_equal]
pub enum ServiceWorkflowUiActionView {
    SelectTarget { target_id: Seq<char> },
    SelectWorkflow { workflow_id: Seq<char> },
    Submit,
    PickFile { field_key: Seq<char> },
    SetToggle { field_key: Seq<char>, value: ToggleState },
}

impl DeepView for ServiceWorkflowUiAction {
    type V = ServiceWorkflowUiActionView;

    open spec fn deep_view(&self) -> ServiceWorkflowUiActionView {
        match self {
            ServiceWorkflowUiAction::SelectTarget { target_id } => ServiceWorkflowUiActionView::SelectTarget {
                target_id: target_id@,
            },
            ServiceWorkflowUiAction::SelectWorkflow { workflow_id } => ServiceWorkflowUiActionView::SelectWorkflow {
                workflow_id: workflow_id@,
            },
            ServiceWorkflowUiAction::Submit => ServiceWorkflowUiActionView::Submit,
            ServiceWorkflowUiAction::PickFile { field_key } => ServiceWorkflowUiActionView::PickFile {
                field_key: field_key@,
            },
            ServiceWorkflowUiAction::SetToggle { field_key, value } => ServiceWorkflowUiActionView::SetToggle {
                field_key: field_key@,
                value: *value,
            },
        }
    }
}

impl Clone for ServiceWorkflowUiAction {
    fn clone(&self) -> (r: Self)
        ensures
            r.deep_view() == self.deep_view(),
    {
        match self {
            ServiceWorkflowUiAction::SelectTarget { target_id } => {
                ServiceWorkflowUiAction::SelectTarget { target_id: target_id.clone() }
            },
            ServiceWorkflowUiAction::SelectWorkflow { workflow_id } => {
                ServiceWorkflowUiAction::SelectWorkflow { workflow_id: workflow_id.clone() }
            },
            ServiceWorkflowUiAction::Submit => ServiceWorkflowUiAction::Submit,
            ServiceWorkflowUiAction::PickFile { field_key } => {
                ServiceWorkflowUiAction::PickFile { field_key: field_key.clone() }
            },
            ServiceWorkflowUiAction::SetToggle { field_key, value } => {
                ServiceWorkflowUiAction::SetToggle { field_key: field_key.clone(), value: *value }
            },
        }
    }
}

/// A field of the form of a workflow.
#[derive(Debug, PartialEq, Eq)]
pub enum ServiceWorkflowFieldState {
    Text { descriptor: ServiceInputDescriptor },
    Toggle { descriptor: ServiceInputDescriptor, value: ToggleState },
}

/// The value of a [`ServiceWorkflowFieldState`].
#[verifier::ext_equal]
pub enum ServiceWorkflowFieldStateView {
    Text { descriptor: ServiceInputDescriptorView },
    Toggle { descriptor: ServiceInputDescriptorView, value: ToggleState },
}

impl DeepView for ServiceWorkflowFieldState {
    type V = ServiceWorkflowFieldStateView;

    open spec fn deep_view(&self) -> ServiceWorkflowFieldStateView {
        match self {
            ServiceWorkflowFieldState::Text { descriptor } => ServiceWorkflowFieldStateView::Text {
                descriptor: descriptor.deep_view(),
            },
            ServiceWorkflowFieldState::Toggle { descriptor, value } => ServiceWorkflowFieldStateView::Toggle {
                descriptor: descriptor.deep_view(),
                value: *value,
            },
        }
    }
}

impl Clone for ServiceWorkflowFieldState {
    fn clone(&self) -> (r: Self)
        ensures
            r.deep_view() == self.deep_view(),
    {
        match self {
            ServiceWorkflowFieldState::Text { descriptor } => {
                ServiceWorkflowFieldState::Text { descriptor: descriptor.clone() }
            },
            ServiceWorkflowFieldState::Toggle { descriptor, value } => {
                ServiceWorkflowFieldState::Toggle { descriptor: descriptor.clone(), value: *value }
            },
        }
    }
}

/// How the form of a workflow stands.
#[derive(Debug, PartialEq, Eq)]
pub struct ServiceWorkflowFormState {
    pub fields: Vec<ServiceWorkflowFieldState>,
    pub pending: bool,
    pub error_message: Option<String>,
}

/// The value of a [`ServiceWorkflowFormState`].
#[verifier::ext_equal]
pub struct ServiceWorkflowFormStateView {
    pub fields: Seq<ServiceWorkflowFieldStateView>,
    pub pending: bool,
    pub error_message: Option<Seq<char>>,
}

impl DeepView for ServiceWorkflowFormState {
    type V = ServiceWorkflowFormStateView;

    open spec fn deep_view(&self) -> ServiceWorkflowFormStateView {
        ServiceWorkflowFormStateView {
            fields: self.fields.deep_view(),
            pending: self.pending,
            error_message: self.error_message.deep_view(),
        }
    }
}

impl Clone for ServiceWorkflowFormState {
    fn clone(&self) -> (r: Self)
        ensures
            r.deep_view() == self.deep_view(),
    {
        let r = ServiceWorkflowFormState {
            fields: self.fields.clone(),
            pending: self.pending,
            error_message: opt_clone(&self.error_message),
        };
        assert(r.fields.deep_view() =~= self.fields.deep_view());
        r
    }
}

} // verus!
