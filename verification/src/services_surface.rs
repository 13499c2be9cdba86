//! What the services page and its sidebar show.

use crate::appearance::{Color, IconName, Severity};
use crate::asc_provider::{auth_ui, resource_menu_of, workflow_ui};
use crate::asc_provider::AppStoreConnectWorkspaceProviderView;
use crate::asc_sections::{section_content, SectionContent, SectionContentView};
use crate::hub::{ServiceInputDescriptorView, ServiceInputKind, ServiceNavigationItemView};
use crate::hub::{ServiceProviderDescriptor, ServiceProviderDescriptorView, ServiceRunState};
use crate::lookup::{find_selected, first_with_id, selected_of};
use crate::service_auth::{ServiceAuthFieldState, ServiceAuthFieldStateView, ServiceAuthFormState};
use crate::service_auth::{ServiceAuthFormStateView, ServiceAuthStatusSummary};
use crate::service_auth::{ServiceAuthStatusSummaryView, ServiceAuthUiModel, ServiceAuthUiModelView};
use crate::service_auth::ToggleState;
use crate::service_workflow::{ServiceWorkflowFieldState, ServiceWorkflowFieldStateView};
use crate::service_workflow::{ServiceWorkflowFormState, ServiceWorkflowFormStateView};
use crate::service_workflow::{ServiceWorkflowOption, ServiceWorkflowOptionView};
use crate::service_workflow::{ServiceWorkflowRunSummary, ServiceWorkflowRunSummaryView};
use crate::service_workflow::{ServiceWorkflowUiAction, ServiceWorkflowUiActionView};
use crate::service_workflow::{ServiceWorkflowUiModel, ServiceWorkflowUiModelView};
use crate::services_page::{active_pane_of, page_wf, ServicesPage, ServicesPageView};
use crate::services_provider::{ServiceResourceMenuEntryView, ServiceResourceMenuModelView};
use crate::text::{cat2, cat3, cat4, join, joined, opt_clone, str_eq};
use vstd::prelude::*;
use vstd::string::*;

verus! {

/// An entry of a menu of the sidebar.
#[derive(Debug, PartialEq, Eq)]
pub struct SidebarMenuEntry {
    pub id: String,
    pub label: String,
}

/// The value of a [`SidebarMenuEntry`].
#[verifier::ext_equal]
pub struct SidebarMenuEntryView {
    pub id: Seq<char>,
    pub label: Seq<char>,
}

impl DeepView for SidebarMenuEntry {
    type V = SidebarMenuEntryView;

    open spec fn deep_view(&self) -> SidebarMenuEntryView {
        SidebarMenuEntryView {
            id: self.id@,
            label: self.label@,
        }
    }
}

impl Clone for SidebarMenuEntry {
    fn clone(&self) -> (r: Self)
        ensures
            r.deep_view() == self.deep_view(),
    {
        SidebarMenuEntry {
            id: self.id.clone(),
            label: self.label.clone(),
        }
    }
}

/// A menu of the sidebar.
#[derive(Debug, PartialEq, Eq)]
pub struct SidebarMenu {
    pub title: String,
    pub current_label: String,
    pub entries: Vec<SidebarMenuEntry>,
}

/// The value of a [`SidebarMenu`].
#[verifier::ext_equal]
pub struct SidebarMenuView {
    pub title: Seq<char>,
    pub current_label: Seq<char>,
    pub entries: Seq<SidebarMenuEntryView>,
}

impl DeepView for SidebarMenu {
    type V = SidebarMenuView;

    open spec fn deep_view(&self) -> SidebarMenuView {
        SidebarMenuView {
            title: self.title@,
            current_label: self.current_label@,
            entries: self.entries.deep_view(),
        }
    }
}

impl Clone for SidebarMenu {
    fn clone(&self) -> (r: Self)
        ensures
            r.deep_view() == self.deep_view(),
    {
        let r = SidebarMenu {
            title: self.title.clone(),
            current_label: self.current_label.clone(),
            entries: self.entries.clone(),
        };
        assert(r.entries.deep_view() =~= self.entries.deep_view());
        r
    }
}

/// A section to choose in the sidebar.
#[derive(Debug, PartialEq, Eq)]
pub struct NavigationRow {
    pub element_id: String,
    pub navigation_id: String,
    pub label: String,
    pub icon: IconName,
    pub selected: bool,
}

/// The value of a [`NavigationRow`].
#[verifier::ext_equal]
pub struct NavigationRowView {
    pub element_id: Seq<char>,
    pub navigation_id: Seq<char>,
    pub label: Seq<char>,
    pub icon: IconName,
    pub selected: bool,
}

impl DeepView for NavigationRow {
    type V = NavigationRowView;

    open spec fn deep_view(&self) -> NavigationRowView {
        NavigationRowView {
            element_id: self.element_id@,
            navigation_id: self.navigation_id@,
            label: self.label@,
            icon: self.icon,
            selected: self.selected,
        }
    }
}

impl Clone for NavigationRow {
    fn clone(&self) -> (r: Self)
        ensures
            r.deep_view() == self.deep_view(),
    {
        NavigationRow {
            element_id: self.element_id.clone(),
            navigation_id: self.navigation_id.clone(),
            label: self.label.clone(),
            icon: self.icon,
            selected: self.selected,
        }
    }
}

/// A field of a form as it is shown.
#[derive(Debug, PartialEq, Eq)]
pub enum FormField {
    /// A line of text; a path to a file has a button to browse for it.
    Text { field_key: String, browse_id: Option<String> },
    Checkbox { element_id: String, field_key: String, label: String, value: ToggleState },
}

/// The value of a [`FormField`].
#[verifier::ext_equal]
pub enum FormFieldView {
    Text { field_key: Seq<char>, browse_id: Option<Seq<char>> },
    Checkbox { element_id: Seq<char>, field_key: Seq<char>, label: Seq<char>, value: ToggleState },
}

impl DeepView for FormField {
    type V = FormFieldView;

    open spec fn deep_view(&self) -> FormFieldView {
        match self {
            FormField::Text { field_key, browse_id } => FormFieldView::Text {
                field_key: field_key@,
                browse_id: browse_id.deep_view(),
            },
            FormField::Checkbox { element_id, field_key, label, value } => FormFieldView::Checkbox {
                element_id: element_id@,
                field_key: field_key@,
                label: label@,
                value: *value,
            },
        }
    }
}

impl Clone for FormField {
    fn clone(&self) -> (r: Self)
        ensures
            r.deep_view() == self.deep_view(),
    {
        match self {
            FormField::Text { field_key, browse_id } => {
                FormField::Text { field_key: field_key.clone(), browse_id: opt_clone(browse_id) }
            },
            FormField::Checkbox { element_id, field_key, label, value } => {
                FormField::Checkbox { element_id: element_id.clone(), field_key: field_key.clone(), label: label.clone(), value: *value }
            },
        }
    }
}

/// A form as it is shown.
#[derive(Debug, PartialEq, Eq)]
pub struct FormModel {
    pub fields: Vec<FormField>,
    pub submit_label: String,
    pub disabled: bool,
}

/// The value of a [`FormModel`].
#[verifier::ext_equal]
pub struct FormModelView {
    pub fields: Seq<FormFieldView>,
    pub submit_label: Seq<char>,
    pub disabled: bool,
}

impl DeepView for FormModel {
    type V = FormModelView;

    open spec fn deep_view(&self) -> FormModelView {
        FormModelView {
            fields: self.fields.deep_view(),
            submit_label: self.submit_label@,
            disabled: self.disabled,
        }
    }
}

impl Clone for FormModel {
    fn clone(&self) -> (r: Self)
        ensures
            r.deep_view() == self.deep_view(),
    {
        let r = FormModel {
            fields: self.fields.clone(),
            submit_label: self.submit_label.clone(),
            disabled: self.disabled,
        };
        assert(r.fields.deep_view() =~= self.fields.deep_view());
        r
    }
}

/// How signing in is offered.
#[derive(Debug, PartialEq, Eq)]
pub enum AuthButton {
    /// In a menu, to a user who is signed in.
    Overflow { label: String },
    /// By a button, to one who is not.
    Open { label: String, disabled: bool },
}

/// The value of an [`AuthButton`].
#[verifier::ext_equal]
pub enum AuthButtonView {
    Overflow { label: Seq<char> },
    Open { label: Seq<char>, disabled: bool },
}

impl DeepView for AuthButton {
    type V = AuthButtonView;

    open spec fn deep_view(&self) -> AuthButtonView {
        match self {
            AuthButton::Overflow { label } => AuthButtonView::Overflow {
                label: label@,
            },
            AuthButton::Open { label, disabled } => AuthButtonView::Open {
                label: label@,
                disabled: *disabled,
            },
        }
    }
}

impl Clone for AuthButton {
    fn clone(&self) -> (r: Self)
        ensures
            r.deep_view() == self.deep_view(),
    {
        match self {
            AuthButton::Overflow { label } => {
                AuthButton::Overflow { label: label.clone() }
            },
            AuthButton::Open { label, disabled } => {
                AuthButton::Open { label: label.clone(), disabled: *disabled }
            },
        }
    }
}

/// The foot of the sidebar.
#[derive(Debug, PartialEq, Eq)]
pub struct AuthFooter {
    pub indicator_color: Color,
    pub tooltip: String,
    pub detail: String,
    pub button: AuthButton,
    pub error: Option<String>,
    pub logout_label: Option<String>,
    pub form: Option<FormModel>,
}

/// The value of an [`AuthFooter`].
#[verifier::ext_equal]
pub struct AuthFooterView {
    pub indicator_color: Color,
    pub tooltip: Seq<char>,
    pub detail: Seq<char>,
    pub button: AuthButtonView,
    pub error: Option<Seq<char>>,
    pub logout_label: Option<Seq<char>>,
    pub form: Option<FormModelView>,
}

impl DeepView for AuthFooter {
    type V = AuthFooterView;

    open spec fn deep_view(&self) -> AuthFooterView {
        AuthFooterView {
            indicator_color: self.indicator_color,
            tooltip: self.tooltip@,
            detail: self.detail@,
            button: self.button.deep_view(),
            error: self.error.deep_view(),
            logout_label: self.logout_label.deep_view(),
            form: self.form.deep_view(),
        }
    }
}

impl Clone for AuthFooter {
    fn clone(&self) -> (r: Self)
        ensures
            r.deep_view() == self.deep_view(),
    {
        AuthFooter {
            indicator_color: self.indicator_color,
            tooltip: self.tooltip.clone(),
            detail: self.detail.clone(),
            button: self.button.clone(),
            error: opt_clone(&self.error),
            logout_label: opt_clone(&self.logout_label),
            form: self.form.clone(),
        }
    }
}

/// The sidebar.
#[derive(Debug, PartialEq, Eq)]
pub struct SidebarControls {
    pub provider_menu: SidebarMenu,
    pub resource_menu: Option<SidebarMenu>,
    pub navigation: Vec<NavigationRow>,
    pub footer: AuthFooter,
}

/// The value of a [`SidebarControls`].
#[verifier::ext_equal]
pub struct SidebarControlsView {
    pub provider_menu: SidebarMenuView,
    pub resource_menu: Option<SidebarMenuView>,
    pub navigation: Seq<NavigationRowView>,
    pub footer: AuthFooterView,
}

impl DeepView for SidebarControls {
    type V = SidebarControlsView;

    open spec fn deep_view(&self) -> SidebarControlsView {
        SidebarControlsView {
            provider_menu: self.provider_menu.deep_view(),
            resource_menu: self.resource_menu.deep_view(),
            navigation: self.navigation.deep_view(),
            footer: self.footer.deep_view(),
        }
    }
}

impl Clone for SidebarControls {
    fn clone(&self) -> (r: Self)
        ensures
            r.deep_view() == self.deep_view(),
    {
        let r = SidebarControls {
            provider_menu: self.provider_menu.clone(),
            resource_menu: self.resource_menu.clone(),
            navigation: self.navigation.clone(),
            footer: self.footer.clone(),
        };
        assert(r.navigation.deep_view() =~= self.navigation.deep_view());
        r
    }
}

/// An entry of a menu of the workflows.
#[derive(Debug, PartialEq, Eq)]
pub struct WorkflowMenuEntry {
    pub label: String,
    pub action: ServiceWorkflowUiAction,
}

/// The value of a [`WorkflowMenuEntry`].
#[verifier::ext_equal]
pub struct WorkflowMenuEntryView {
    pub label: Seq<char>,
    pub action: ServiceWorkflowUiActionView,
}

impl DeepView for WorkflowMenuEntry {
    type V = WorkflowMenuEntryView;

    open spec fn deep_view(&self) -> WorkflowMenuEntryView {
        WorkflowMenuEntryView {
            label: self.label@,
            action: self.action.deep_view(),
        }
    }
}

impl Clone for WorkflowMenuEntry {
    fn clone(&self) -> (r: Self)
        ensures
            r.deep_view() == self.deep_view(),
    {
        WorkflowMenuEntry {
            label: self.label.clone(),
            action: self.action.clone(),
        }
    }
}

/// A menu of the workflows.
#[derive(Debug, PartialEq, Eq)]
pub struct WorkflowMenu {
    pub title: String,
    pub current_label: String,
    pub entries: Vec<WorkflowMenuEntry>,
}

/// The value of a [`WorkflowMenu`].
#[verifier::ext_equal]
pub struct WorkflowMenuView {
    pub title: Seq<char>,
    pub current_label: Seq<char>,
    pub entries: Seq<WorkflowMenuEntryView>,
}

impl DeepView for WorkflowMenu {
    type V = WorkflowMenuView;

    open spec fn deep_view(&self) -> WorkflowMenuView {
        WorkflowMenuView {
            title: self.title@,
            current_label: self.current_label@,
            entries: self.entries.deep_view(),
        }
    }
}

impl Clone for WorkflowMenu {
    fn clone(&self) -> (r: Self)
        ensures
            r.deep_view() == self.deep_view(),
    {
        let r = WorkflowMenu {
            title: self.title.clone(),
            current_label: self.current_label.clone(),
            entries: self.entries.clone(),
        };
        assert(r.entries.deep_view() =~= self.entries.deep_view());
        r
    }
}

/// How a run stands, in a line.
#[derive(Debug, PartialEq, Eq)]
pub struct RunLine {
    pub color: Color,
    pub text: String,
}

/// The value of a [`RunLine`].
#[verifier::ext_equal]
pub struct RunLineView {
    pub color: Color,
    pub text: Seq<char>,
}

impl DeepView for RunLine {
    type V = RunLineView;

    open spec fn deep_view(&self) -> RunLineView {
        RunLineView {
            color: self.color,
            text: self.text@,
        }
    }
}

impl Clone for RunLine {
    fn clone(&self) -> (r: Self)
        ensures
            r.deep_view() == self.deep_view(),
    {
        RunLine {
            color: self.color,
            text: self.text.clone(),
        }
    }
}

/// The controls of the workflows.
#[derive(Debug, PartialEq, Eq)]
pub struct WorkflowSurface {
    pub target_menu: Option<WorkflowMenu>,
    pub workflow_menu: Option<WorkflowMenu>,
    pub fields: Vec<FormField>,
    /// Nothing can be entered while the workflow runs.
    pub fields_disabled: bool,
    pub run: Option<RunLine>,
    pub disabled_reason: Option<String>,
    pub execute_label: String,
    pub execute_disabled: bool,
    pub error: Option<String>,
}

/// The value of a [`WorkflowSurface`].
#[verifier::ext_equal]
pub struct WorkflowSurfaceView {
    pub target_menu: Option<WorkflowMenuView>,
    pub workflow_menu: Option<WorkflowMenuView>,
    pub fields: Seq<FormFieldView>,
    pub fields_disabled: bool,
    pub run: Option<RunLineView>,
    pub disabled_reason: Option<Seq<char>>,
    pub execute_label: Seq<char>,
    pub execute_disabled: bool,
    pub error: Option<Seq<char>>,
}

impl DeepView for WorkflowSurface {
    type V = WorkflowSurfaceView;

    open spec fn deep_view(&self) -> WorkflowSurfaceView {
        WorkflowSurfaceView {
            target_menu: self.target_menu.deep_view(),
            workflow_menu: self.workflow_menu.deep_view(),
            fields: self.fields.deep_view(),
            fields_disabled: self.fields_disabled,
            run: self.run.deep_view(),
            disabled_reason: self.disabled_reason.deep_view(),
            execute_label: self.execute_label@,
            execute_disabled: self.execute_disabled,
            error: self.error.deep_view(),
        }
    }
}

impl Clone for WorkflowSurface {
    fn clone(&self) -> (r: Self)
        ensures
            r.deep_view() == self.deep_view(),
    {
        let r = WorkflowSurface {
            target_menu: self.target_menu.clone(),
            workflow_menu: self.workflow_menu.clone(),
            fields: self.fields.clone(),
            fields_disabled: self.fields_disabled,
            run: self.run.clone(),
            disabled_reason: opt_clone(&self.disabled_reason),
            execute_label: self.execute_label.clone(),
            execute_disabled: self.execute_disabled,
            error: opt_clone(&self.error),
        };
        assert(r.fields.deep_view() =~= self.fields.deep_view());
        r
    }
}

/// What the page shows: the controls of the workflows, where there are any, above the section.
#[derive(Debug, PartialEq, Eq)]
pub struct ProviderContent {
    pub workflow: Option<ServiceWorkflowUiModel>,
    pub section: SectionContent,
}

/// The value of a [`ProviderContent`].
#[verifier::ext_equal]
pub struct ProviderContentView {
    pub workflow: Option<ServiceWorkflowUiModelView>,
    pub section: SectionContentView,
}

impl DeepView for ProviderContent {
    type V = ProviderContentView;

    open spec fn deep_view(&self) -> ProviderContentView {
        ProviderContentView {
            workflow: self.workflow.deep_view(),
            section: self.section.deep_view(),
        }
    }
}

impl Clone for ProviderContent {
    fn clone(&self) -> (r: Self)
        ensures
            r.deep_view() == self.deep_view(),
    {
        ProviderContent {
            workflow: self.workflow.clone(),
            section: self.section.clone(),
        }
    }
}

/// A label, with what there is to add in brackets.
pub open spec fn labelled(label: Seq<char>, detail: Option<Seq<char>>) -> Seq<char> {
    match detail {
        Some(detail) => label + " ("@ + detail + ")"@,
        None => label,
    }
}

fn label_with_detail(label: &str, detail: &Option<String>) -> (r: String)
    ensures
        r@ == labelled(label@, detail.deep_view()),
{
    match detail {
        Some(detail) => cat4(label, " (", detail.as_str(), ")"),
        None => label.to_owned(),
    }
}

/// The selected provider.
pub open spec fn provider_of(page: ServicesPageView) -> ServiceProviderDescriptorView {
    first_with_id::<ServiceProviderDescriptor>(page.providers, page.state.provider_id).unwrap()
}

/// The menu of providers.
pub open spec fn provider_menu(page: ServicesPageView) -> SidebarMenuView {
    SidebarMenuView {
        title: "Provider"@,
        current_label: provider_of(page).label,
        entries: page.providers.map_values(
            |provider: ServiceProviderDescriptorView|
                SidebarMenuEntryView { id: provider.id, label: provider.label },
        ),
    }
}

/// The menu of the provider's resources.
pub open spec fn resource_menu(model: ServiceResourceMenuModelView) -> SidebarMenuView {
    SidebarMenuView {
        title: model.singular_label,
        current_label: model.current_label,
        entries: model.entries.map_values(
            |entry: ServiceResourceMenuEntryView|
                SidebarMenuEntryView { id: entry.id, label: labelled(entry.label, entry.detail) },
        ),
    }
}

/// The icon of a section.
pub open spec fn icon_of(navigation_id: Seq<char>) -> IconName {
    if navigation_id == "overview"@ {
        IconName::Info
    } else if navigation_id == "builds"@ {
        IconName::Box
    } else if navigation_id == "release"@ {
        IconName::ArrowCircle
    } else {
        IconName::Globe
    }
}

/// A section to choose.
pub open spec fn navigation_row(
    item: ServiceNavigationItemView,
    selected_id: Seq<char>,
) -> NavigationRowView {
    NavigationRowView {
        element_id: "services-nav-"@ + item.id,
        navigation_id: item.id,
        label: item.label,
        icon: icon_of(item.id),
        selected: selected_id == item.id,
    }
}

/// The colour of a severity.
pub open spec fn severity_color(severity: Severity) -> Color {
    match severity {
        Severity::Success => Color::Success,
        Severity::Warning => Color::Warning,
        Severity::Error => Color::Error,
        Severity::Info => Color::Info,
    }
}

/// All that there is to say of the sign-in, a line each.
pub open spec fn status_tooltip(status: ServiceAuthStatusSummaryView) -> Seq<char> {
    joined(seq![status.headline, status.detail] + status.warnings, "\n"@)
}

/// A field as it is shown. `prefix` sets the fields of one form apart from those of another.
pub open spec fn text_field(
    descriptor: ServiceInputDescriptorView,
    prefix: Seq<char>,
) -> FormFieldView {
    FormFieldView::Text {
        field_key: descriptor.key,
        browse_id: if descriptor.kind == ServiceInputKind::FilePath {
            Some("browse-"@ + prefix + "-"@ + descriptor.key)
        } else {
            None
        },
    }
}

/// A box as it is shown.
pub open spec fn checkbox_field(
    descriptor: ServiceInputDescriptorView,
    value: ToggleState,
    prefix: Seq<char>,
) -> FormFieldView {
    FormFieldView::Checkbox {
        element_id: prefix + "-toggle-"@ + descriptor.key,
        field_key: descriptor.key,
        label: descriptor.label,
        value,
    }
}

/// A field of the sign-in as it is shown.
pub open spec fn auth_field(field: ServiceAuthFieldStateView) -> FormFieldView {
    match field {
        ServiceAuthFieldStateView::Text { descriptor, .. } => text_field(descriptor, "auth"@),
        ServiceAuthFieldStateView::Toggle { descriptor, value } => checkbox_field(
            descriptor,
            value,
            "auth"@,
        ),
    }
}

/// The form to sign in as it is shown.
pub open spec fn auth_form_model(
    form: ServiceAuthFormStateView,
    submit_label: Seq<char>,
) -> FormModelView {
    FormModelView {
        fields: form.fields.map_values(|field: ServiceAuthFieldStateView| auth_field(field)),
        submit_label,
        disabled: form.pending,
    }
}

/// What signing in is called: a user who is signed in does it again.
pub open spec fn authenticate_label_of(model: ServiceAuthUiModelView) -> Seq<char> {
    if model.status.authenticated {
        model.reauthenticate_label
    } else {
        model.authenticate_label
    }
}

/// The foot of the sidebar.
pub open spec fn auth_footer(model: ServiceAuthUiModelView) -> AuthFooterView {
    AuthFooterView {
        indicator_color: severity_color(model.status.severity),
        tooltip: status_tooltip(model.status),
        detail: model.status.detail,
        button: if model.status.authenticated {
            AuthButtonView::Overflow { label: authenticate_label_of(model) }
        } else {
            AuthButtonView::Open {
                label: authenticate_label_of(model),
                disabled: model.form.pending,
            }
        },
        error: model.form.error_message,
        logout_label: if model.form.logout_available && model.status.authenticated {
            Some(model.logout_label)
        } else {
            None
        },
        form: if model.form.expanded {
            Some(auth_form_model(model.form, authenticate_label_of(model)))
        } else {
            None
        },
    }
}

/// The sidebar.
pub open spec fn sidebar_controls(
    page: ServicesPageView,
    pane: AppStoreConnectWorkspaceProviderView,
) -> SidebarControlsView {
    SidebarControlsView {
        provider_menu: provider_menu(page),
        resource_menu: match resource_menu_of(pane, page.state) {
            Some(model) => Some(resource_menu(model)),
            None => None,
        },
        navigation: provider_of(page).shell.navigation_items.map_values(
            |item: ServiceNavigationItemView| navigation_row(item, page.state.navigation_id),
        ),
        footer: auth_footer(auth_ui(pane)),
    }
}

/// What the page shows.
pub open spec fn provider_content(
    page: ServicesPageView,
    pane: AppStoreConnectWorkspaceProviderView,
) -> ProviderContentView {
    ProviderContentView {
        workflow: workflow_ui(pane, page.state),
        section: section_content(pane, page.state),
    }
}

/// The label of the chosen option, or else that of the menu.
pub open spec fn current_option_label(
    options: Seq<ServiceWorkflowOptionView>,
    selected_id: Option<Seq<char>>,
    menu_label: Seq<char>,
) -> Seq<char> {
    match selected_of::<ServiceWorkflowOption>(options, selected_id) {
        Some(option) => option.label,
        None => menu_label,
    }
}

/// What choosing an option does: it selects a target or a workflow.
pub open spec fn option_action(
    option: ServiceWorkflowOptionView,
    is_target: bool,
) -> ServiceWorkflowUiActionView {
    if is_target {
        ServiceWorkflowUiActionView::SelectTarget { target_id: option.id }
    } else {
        ServiceWorkflowUiActionView::SelectWorkflow { workflow_id: option.id }
    }
}

/// The entries of a menu of options.
pub open spec fn option_entries(
    options: Seq<ServiceWorkflowOptionView>,
    is_target: bool,
) -> Seq<WorkflowMenuEntryView> {
    options.map_values(
        |option: ServiceWorkflowOptionView|
            WorkflowMenuEntryView {
                label: labelled(option.label, option.detail),
                action: option_action(option, is_target),
            },
    )
}

/// A menu of options; there is none where there is nothing to choose.
pub open spec fn option_menu(
    title: Seq<char>,
    options: Seq<ServiceWorkflowOptionView>,
    selected_id: Option<Seq<char>>,
    is_target: bool,
) -> Option<WorkflowMenuView> {
    if options.len() == 0 {
        None
    } else {
        Some(
            WorkflowMenuView {
                title,
                current_label: current_option_label(options, selected_id, title),
                entries: option_entries(options, is_target),
            },
        )
    }
}

/// A field of a workflow's form as it is shown.
pub open spec fn workflow_field(field: ServiceWorkflowFieldStateView) -> FormFieldView {
    match field {
        ServiceWorkflowFieldStateView::Text { descriptor } => text_field(descriptor, "workflow"@),
        ServiceWorkflowFieldStateView::Toggle { descriptor, value } => checkbox_field(
            descriptor,
            value,
            "workflow"@,
        ),
    }
}

/// How a run stands, in a line.
pub open spec fn run_line(run: ServiceWorkflowRunSummaryView) -> RunLineView {
    RunLineView {
        color: match run.state {
            ServiceRunState::Pending | ServiceRunState::Running => Color::Muted,
            ServiceRunState::Succeeded => Color::Success,
            ServiceRunState::Failed => Color::Error,
        },
        text: if run.detail.len() == 0 {
            run.headline
        } else {
            run.headline + ": "@ + run.detail
        },
    }
}

/// The controls of the workflows.
pub open spec fn workflow_surface(
    model: ServiceWorkflowUiModelView,
    form: ServiceWorkflowFormStateView,
) -> WorkflowSurfaceView {
    WorkflowSurfaceView {
        target_menu: option_menu(model.target_label, model.targets, model.selected_target_id, true),
        workflow_menu: option_menu(
            model.workflow_label,
            model.workflows,
            model.selected_workflow_id,
            false,
        ),
        fields: form.fields.map_values(
            |field: ServiceWorkflowFieldStateView| workflow_field(field),
        ),
        fields_disabled: form.pending,
        run: match model.run {
            Some(run) => Some(run_line(run)),
            None => None,
        },
        disabled_reason: model.disabled_reason,
        execute_label: model.execute_label,
        execute_disabled: form.pending || model.selected_workflow_id is None
            || model.disabled_reason is Some,
        error: form.error_message,
    }
}

/// The icon of a section.
pub fn navigation_icon(navigation_id: &str) -> (r: IconName)
    ensures
        r == icon_of(navigation_id@),
{
    if str_eq(navigation_id, "overview") {
        IconName::Info
    } else if str_eq(navigation_id, "builds") {
        IconName::Box
    } else if str_eq(navigation_id, "release") {
        IconName::ArrowCircle
    } else {
        IconName::Globe
    }
}

/// The dot beside the sign-in, and what is said of it.
pub fn render_auth_status_indicator(status: &ServiceAuthStatusSummary) -> (r: (Color, String))
    ensures
        r.0 == severity_color(status.severity),
        r.1@ == status_tooltip(status.deep_view()),
{
    let color = match status.severity {
        Severity::Success => Color::Success,
        Severity::Warning => Color::Warning,
        Severity::Error => Color::Error,
        Severity::Info => Color::Info,
    };
    let mut lines: Vec<String> = Vec::new();
    lines.push(status.headline.clone());
    lines.push(status.detail.clone());
    let ghost warnings = status.deep_view().warnings;
    let ghost head = seq![status.headline@, status.detail@];
    let mut i: usize = 0;
    assert(lines.deep_view() =~= head + warnings.take(0));
    while i < status.warnings.len()
        invariant
            i <= status.warnings@.len(),
            warnings == status.warnings.deep_view(),
            lines.deep_view() == head + warnings.take(i as int),
        decreases status.warnings@.len() - i,
    {
        let ghost before = lines.deep_view();
        lines.push(status.warnings[i].clone());
        assert(lines.deep_view() =~= before.push(warnings[i as int]));
        assert(lines.deep_view() =~= head + warnings.take(i + 1));
        i = i + 1;
    }
    assert(warnings.take(i as int) =~= warnings);
    (color, join(&lines, "\n"))
}

fn browse_id(kind: ServiceInputKind, prefix: &str, key: &str) -> (r: Option<String>)
    ensures
        r.deep_view() == (if kind == ServiceInputKind::FilePath {
            Some("browse-"@ + prefix@ + "-"@ + key@)
        } else {
            None
        }),
{
    match kind {
        ServiceInputKind::FilePath => Some(cat4("browse-", prefix, "-", key)),
        ServiceInputKind::Text | ServiceInputKind::Toggle => None,
    }
}

/// The form to sign in as it is shown.
pub fn render_auth_form(form: &ServiceAuthFormState, submit_label: &str) -> (r: FormModel)
    ensures
        r.deep_view() == auth_form_model(form.deep_view(), submit_label@),
{
    let mut fields: Vec<FormField> = Vec::new();
    let mut i: usize = 0;
    while i < form.fields.len()
        invariant
            i <= form.fields@.len(),
            fields@.len() == i,
            forall|j: int|
                0 <= j < i ==> (#[trigger] fields@[j]).deep_view() == auth_field(
                    form.fields@[j].deep_view(),
                ),
        decreases form.fields@.len() - i,
    {
        let field = match &form.fields[i] {
            ServiceAuthFieldState::Text { descriptor, .. } => FormField::Text {
                field_key: descriptor.key.clone(),
                browse_id: browse_id(descriptor.kind, "auth", descriptor.key.as_str()),
            },
            ServiceAuthFieldState::Toggle { descriptor, value } => FormField::Checkbox {
                element_id: cat3("auth", "-toggle-", descriptor.key.as_str()),
                field_key: descriptor.key.clone(),
                label: descriptor.label.clone(),
                value: *value,
            },
        };
        fields.push(field);
        i = i + 1;
    }
    assert(fields.deep_view() =~= auth_form_model(form.deep_view(), submit_label@).fields);
    FormModel { fields, submit_label: submit_label.to_owned(), disabled: form.pending }
}

/// How signing in is offered to a user who is signed in.
pub fn render_auth_overflow_menu(authenticate_label: &str) -> (r: AuthButton)
    ensures
        r.deep_view() == (AuthButtonView::Overflow { label: authenticate_label@ }),
{
    AuthButton::Overflow { label: authenticate_label.to_owned() }
}

/// The foot of the sidebar.
pub fn render_auth_sidebar_footer(model: &ServiceAuthUiModel) -> (r: AuthFooter)
    ensures
        r.deep_view() == auth_footer(model.deep_view()),
{
    let authenticate_label = if model.status.authenticated {
        model.reauthenticate_label.clone()
    } else {
        model.authenticate_label.clone()
    };
    let (indicator_color, tooltip) = render_auth_status_indicator(&model.status);
    let button = if model.status.authenticated {
        render_auth_overflow_menu(authenticate_label.as_str())
    } else {
        AuthButton::Open { label: authenticate_label.clone(), disabled: model.form.pending }
    };
    let logout_label = if model.form.logout_available && model.status.authenticated {
        Some(model.logout_label.clone())
    } else {
        None
    };
    let form = if model.form.expanded {
        Some(render_auth_form(&model.form, authenticate_label.as_str()))
    } else {
        None
    };
    AuthFooter {
        indicator_color,
        tooltip,
        detail: model.status.detail.clone(),
        button,
        error: opt_clone(&model.form.error_message),
        logout_label,
        form,
    }
}

/// The entries of a menu of options.
pub fn build_workflow_option_menu(options: &Vec<ServiceWorkflowOption>, is_target: bool) -> (r: Vec<
    WorkflowMenuEntry,
>)
    ensures
        r.deep_view() == option_entries(options.deep_view(), is_target),
{
    let mut entries: Vec<WorkflowMenuEntry> = Vec::new();
    let ghost all = option_entries(options.deep_view(), is_target);
    let mut i: usize = 0;
    while i < options.len()
        invariant
            i <= options@.len(),
            entries@.len() == i,
            all == option_entries(options.deep_view(), is_target),
            forall|j: int| 0 <= j < i ==> (#[trigger] entries@[j]).deep_view() == all[j],
        decreases options@.len() - i,
    {
        let option = &options[i];
        let action = if is_target {
            ServiceWorkflowUiAction::SelectTarget { target_id: option.id.clone() }
        } else {
            ServiceWorkflowUiAction::SelectWorkflow { workflow_id: option.id.clone() }
        };
        let entry = WorkflowMenuEntry {
            label: label_with_detail(option.label.as_str(), &option.detail),
            action,
        };
        assert(entry.deep_view() == all[i as int]);
        entries.push(entry);
        i = i + 1;
    }
    assert(entries.deep_view() =~= all);
    entries
}

fn render_option_menu(
    title: &str,
    options: &Vec<ServiceWorkflowOption>,
    selected_id: &Option<String>,
    is_target: bool,
) -> (r: Option<WorkflowMenu>)
    ensures
        r.deep_view() == option_menu(
            title@,
            options.deep_view(),
            selected_id.deep_view(),
            is_target,
        ),
{
    if options.len() == 0 {
        return None;
    }
    let current_label = match find_selected(options, selected_id) {
        Some(option) => option.label.clone(),
        None => title.to_owned(),
    };
    Some(
        WorkflowMenu {
            title: title.to_owned(),
            current_label,
            entries: build_workflow_option_menu(options, is_target),
        },
    )
}

/// The fields of a workflow's form as they are shown.
pub fn render_workflow_form(form: &ServiceWorkflowFormState) -> (r: Vec<FormField>)
    ensures
        r.deep_view() == form.deep_view().fields.map_values(
            |field: ServiceWorkflowFieldStateView| workflow_field(field),
        ),
{
    let mut fields: Vec<FormField> = Vec::new();
    let mut i: usize = 0;
    while i < form.fields.len()
        invariant
            i <= form.fields@.len(),
            fields@.len() == i,
            forall|j: int|
                0 <= j < i ==> (#[trigger] fields@[j]).deep_view() == workflow_field(
                    form.fields@[j].deep_view(),
                ),
        decreases form.fields@.len() - i,
    {
        let field = match &form.fields[i] {
            ServiceWorkflowFieldState::Text { descriptor } => FormField::Text {
                field_key: descriptor.key.clone(),
                browse_id: browse_id(descriptor.kind, "workflow", descriptor.key.as_str()),
            },
            ServiceWorkflowFieldState::Toggle { descriptor, value } => FormField::Checkbox {
                element_id: cat3("workflow", "-toggle-", descriptor.key.as_str()),
                field_key: descriptor.key.clone(),
                label: descriptor.label.clone(),
                value: *value,
            },
        };
        fields.push(field);
        i = i + 1;
    }
    assert(fields.deep_view() =~= form.deep_view().fields.map_values(
        |field: ServiceWorkflowFieldStateView| workflow_field(field),
    ));
    fields
}

/// How a run stands, in a line.
pub fn render_workflow_run(run: &ServiceWorkflowRunSummary) -> (r: RunLine)
    ensures
        r.deep_view() == run_line(run.deep_view()),
{
    let color = match run.state {
        ServiceRunState::Pending | ServiceRunState::Running => Color::Muted,
        ServiceRunState::Succeeded => Color::Success,
        ServiceRunState::Failed => Color::Error,
    };
    let text = if run.detail.as_str().is_empty() {
        run.headline.clone()
    } else {
        cat3(run.headline.as_str(), ": ", run.detail.as_str())
    };
    RunLine { color, text }
}

/// The controls of the workflows.
pub fn render_workflow_surface(
    model: &ServiceWorkflowUiModel,
    form: &ServiceWorkflowFormState,
) -> (r: WorkflowSurface)
    ensures
        r.deep_view() == workflow_surface(model.deep_view(), form.deep_view()),
{
    let target_menu = render_option_menu(
        model.target_label.as_str(),
        &model.targets,
        &model.selected_target_id,
        true,
    );
    let workflow_menu = render_option_menu(
        model.workflow_label.as_str(),
        &model.workflows,
        &model.selected_workflow_id,
        false,
    );
    let run = match &model.run {
        Some(run) => Some(render_workflow_run(run)),
        None => None,
    };
    WorkflowSurface {
        target_menu,
        workflow_menu,
        fields: render_workflow_form(form),
        fields_disabled: form.pending,
        run,
        disabled_reason: opt_clone(&model.disabled_reason),
        execute_label: model.execute_label.clone(),
        execute_disabled: form.pending || model.selected_workflow_id.is_none()
            || model.disabled_reason.is_some(),
        error: opt_clone(&form.error_message),
    }
}

/// Whether the sidebar has to turn to another page: the one that is open is not the one that it
/// follows.
pub fn sync_page_subscription(open_page: Option<u64>, followed_page: Option<u64>) -> (r: bool)
    ensures
        r == (open_page != followed_page),
{
    match (open_page, followed_page) {
        (Some(open_page), Some(followed_page)) => open_page != followed_page,
        (None, None) => false,
        _ => true,
    }
}

impl ServicesPage {
    /// The menu of providers.
    pub fn render_provider_menu(&self) -> (r: SidebarMenu)
        requires
            page_wf(self.deep_view()),
        ensures
            r.deep_view() == provider_menu(self.deep_view()),
    {
        let mut entries: Vec<SidebarMenuEntry> = Vec::new();
        let ghost all = provider_menu(self.deep_view()).entries;
        let mut i: usize = 0;
        while i < self.providers.len()
            invariant
                i <= self.providers@.len(),
                entries@.len() == i,
                all == provider_menu(self.deep_view()).entries,
                forall|j: int| 0 <= j < i ==> (#[trigger] entries@[j]).deep_view() == all[j],
            decreases self.providers@.len() - i,
        {
            let provider = &self.providers[i];
            entries.push(
                SidebarMenuEntry { id: provider.id.clone(), label: provider.label.clone() },
            );
            i = i + 1;
        }
        assert(entries.deep_view() =~= all);
        SidebarMenu {
            title: "Provider".to_owned(),
            current_label: self.provider().label.clone(),
            entries,
        }
    }

    /// The menu of the provider's resources.
    pub fn render_resource_menu(&self) -> (r: Option<SidebarMenu>)
        requires
            page_wf(self.deep_view()),
        ensures
            r.deep_view() == (match resource_menu_of(
                active_pane_of(self.deep_view()).unwrap(),
                self.deep_view().state,
            ) {
                Some(model) => Some(resource_menu(model)),
                None => None,
            }),
    {
        let model = match self.active_pane().resource_menu(&self.state) {
            Some(model) => model,
            None => {
                return None;
            },
        };
        let mut entries: Vec<SidebarMenuEntry> = Vec::new();
        let ghost all = resource_menu(model.deep_view()).entries;
        let mut i: usize = 0;
        while i < model.entries.len()
            invariant
                i <= model.entries@.len(),
                entries@.len() == i,
                all == resource_menu(model.deep_view()).entries,
                forall|j: int| 0 <= j < i ==> (#[trigger] entries@[j]).deep_view() == all[j],
            decreases model.entries@.len() - i,
        {
            let entry = &model.entries[i];
            entries.push(
                SidebarMenuEntry {
                    id: entry.id.clone(),
                    label: label_with_detail(entry.label.as_str(), &entry.detail),
                },
            );
            i = i + 1;
        }
        assert(entries.deep_view() =~= all);
        Some(
            SidebarMenu {
                title: model.singular_label,
                current_label: model.current_label,
                entries,
            },
        )
    }

    /// The sidebar.
    pub fn render_sidebar_controls(&self) -> (r: SidebarControls)
        requires
            page_wf(self.deep_view()),
        ensures
            r.deep_view() == sidebar_controls(
                self.deep_view(),
                active_pane_of(self.deep_view()).unwrap(),
            ),
    {
        let provider = self.provider();
        let ghost all = provider_of(self.deep_view()).shell.navigation_items;
        let mut navigation: Vec<NavigationRow> = Vec::new();
        let mut i: usize = 0;
        while i < provider.shell.navigation_items.len()
            invariant
                i <= provider.shell.navigation_items@.len(),
                all == provider.shell.navigation_items.deep_view(),
                navigation@.len() == i,
                forall|j: int|
                    0 <= j < i ==> (#[trigger] navigation@[j]).deep_view() == navigation_row(
                        all[j],
                        self.deep_view().state.navigation_id,
                    ),
            decreases provider.shell.navigation_items@.len() - i,
        {
            let item = &provider.shell.navigation_items[i];
            navigation.push(
                NavigationRow {
                    element_id: cat2("services-nav-", item.id.as_str()),
                    navigation_id: item.id.clone(),
                    label: item.label.clone(),
                    icon: navigation_icon(item.id.as_str()),
                    selected: str_eq(self.state.navigation_id.as_str(), item.id.as_str()),
                },
            );
            i = i + 1;
        }
        assert(navigation.deep_view() =~= all.map_values(
            |item: ServiceNavigationItemView|
                navigation_row(item, self.deep_view().state.navigation_id),
        ));
        SidebarControls {
            provider_menu: self.render_provider_menu(),
            resource_menu: self.render_resource_menu(),
            navigation,
            footer: render_auth_sidebar_footer(&self.active_pane().auth_ui_model()),
        }
    }

    /// What the page shows.
    pub fn render_provider_content(&self) -> (r: ProviderContent)
        requires
            page_wf(self.deep_view()),
        ensures
            r.deep_view() == provider_content(
                self.deep_view(),
                active_pane_of(self.deep_view()).unwrap(),
            ),
    {
        let pane = self.active_pane();
        ProviderContent {
            workflow: pane.workflow_ui_model(&self.state),
            section: pane.render_section(&self.state),
        }
    }
}

} // verus!
