//! What each step of the App Store Connect pages changes, and what it leaves.

use crate::asc_apps::AscAppSummaryView;
use crate::asc_auth::AscAuthSummaryView;
use crate::asc_builds::AscBuildPageView;
use crate::asc_page::operation_name;
use crate::asc_provider::{after_auth_action, auth_file_picked, auth_finished, auth_status};
use crate::asc_provider::{authenticate_submission, authenticate_submitted, available_targets_of};
use crate::asc_provider::{available_workflows_of, builds_finished, logout_submitted};
use crate::asc_provider::{more_builds_fetch, more_builds_finished, more_builds_requested};
use crate::asc_provider::{navigation_workflows_of, new_provider, normalized, normalized_workflow};
use crate::asc_provider::{refresh_finished, result_view, state_after_workflow_action};
use crate::asc_provider::{workflow_file_picked, workflow_ui, AppStoreConnectWorkspaceProviderView};
use crate::hub::{ServiceArtifactKind, ServiceProviderDescriptorView, ServiceWorkflowDescriptor};
use crate::hub::{ServiceWorkflowDescriptorView, ServiceWorkflowKind};
use crate::load_state::LoadStateView;
use crate::lookup::{lemma_choice_is_kept_or_first, lemma_first_with_id, HasId};
use crate::provider_laws::{lemma_selected_app_is_loaded, names_no_app};
use crate::service_auth::{authenticate_request, blank_form, collected_input, ToggleState};
use crate::service_auth::{ServiceAuthFormStateView, ServiceAuthUiActionView};
use crate::service_workflow::{ServiceWorkflowOption, ServiceWorkflowUiActionView};
use crate::services_provider::ServicesPageStateView;
use vstd::prelude::*;

verus! {

/// Nothing of the pages is other than it was but their form.
pub open spec fn only_form_changes(
    before: AppStoreConnectWorkspaceProviderView,
    after: AppStoreConnectWorkspaceProviderView,
) -> bool {
    &&& after.descriptor == before.descriptor
    &&& after.latest_run == before.latest_run
    &&& after.auth_state == before.auth_state
    &&& after.apps_state == before.apps_state
    &&& after.builds_state == before.builds_state
}

/// Nothing of the pages is other than it was but their builds.
pub open spec fn only_builds_change(
    before: AppStoreConnectWorkspaceProviderView,
    after: AppStoreConnectWorkspaceProviderView,
) -> bool {
    &&& after.descriptor == before.descriptor
    &&& after.auth_form == before.auth_form
    &&& after.latest_run == before.latest_run
    &&& after.auth_state == before.auth_state
    &&& after.apps_state == before.apps_state
}

/// What the form offers and what was entered into it stay.
pub open spec fn form_keeps_contents(
    before: ServiceAuthFormStateView,
    after: ServiceAuthFormStateView,
) -> bool {
    &&& after.authenticate_descriptor == before.authenticate_descriptor
    &&& after.logout_available == before.logout_available
    &&& after.fields == before.fields
}

/// The result of a step is what came of it, or the message of what went wrong.
pub proof fn lemma_result_as_it_came<T: DeepView>(value: T, message: String)
    ensures
        result_view::<T>(Ok(value)) == Ok::<T::V, Seq<char>>(value.deep_view()),
        result_view::<T>(Err(message)) == Err::<T::V, Seq<char>>(message@),
{
}

/// Each kind of artifact has a name of its own in the identifier of an operation.
pub proof fn lemma_artifact_names()
    ensures
        operation_name(ServiceArtifactKind::Ipa) == "ipa"@,
        operation_name(ServiceArtifactKind::Pkg) == "pkg"@,
        operation_name(ServiceArtifactKind::AppBundle) == "app-bundle"@,
        operation_name(ServiceArtifactKind::Binary) == "binary"@,
{
}

/// The pages start with the form of their provider, as yet blank.
pub proof fn lemma_pages_start_with_blank_form(descriptor: ServiceProviderDescriptorView)
    ensures
        new_provider(descriptor).auth_form == blank_form(descriptor),
{
}

/// The sign-in and the apps are there as they came, and the form stays.
pub proof fn lemma_overview_is_taken_in(
    p: AppStoreConnectWorkspaceProviderView,
    s: ServicesPageStateView,
    auth: LoadStateView<AscAuthSummaryView>,
    apps: LoadStateView<Seq<AscAppSummaryView>>,
)
    ensures
        refresh_finished(p, s, auth, apps).auth_state == auth,
        refresh_finished(p, s, auth, apps).apps_state == apps,
        refresh_finished(p, s, auth, apps).auth_form == p.auth_form,
        refresh_finished(p, s, auth, apps).descriptor == p.descriptor,
        refresh_finished(p, s, auth, apps).latest_run == p.latest_run,
{
}

/// Builds that come, and those that are asked for beyond them, change the builds alone.
pub proof fn lemma_builds_change_builds_alone(
    p: AppStoreConnectWorkspaceProviderView,
    s: ServicesPageStateView,
    app_id: Seq<char>,
    url: Seq<char>,
    page: LoadStateView<AscBuildPageView>,
)
    ensures
        only_builds_change(p, builds_finished(p, s, app_id, page)),
        only_builds_change(p, more_builds_finished(p, s, app_id, url, page)),
        only_builds_change(p, more_builds_requested(p, s)),
        p.builds_state !is Ready ==> more_builds_fetch(p, s) is None && more_builds_requested(p, s)
            == p,
{
}

/// No further page is asked for where no app is selected.
pub proof fn lemma_no_page_without_app(
    p: AppStoreConnectWorkspaceProviderView,
    s: ServicesPageStateView,
)
    requires
        p.apps_state matches LoadStateView::Ready(apps) ==> names_no_app(
            apps,
            s.selected_resource_id,
        ),
    ensures
        more_builds_fetch(p, s) is None,
        more_builds_requested(p, s) == p,
{
    lemma_selected_app_is_loaded(p, s);
}

/// A form that is complete is sent with what was entered, and waits; one that is not shows what it
/// lacks. Either way nothing but the form changes, and what was entered stays.
pub proof fn lemma_sign_in_is_sent(p: AppStoreConnectWorkspaceProviderView)
    ensures
        ({
            let after = authenticate_submitted(p);
            let request = authenticate_request(p.auth_form, "app-store-connect"@);
            &&& only_form_changes(p, after)
            &&& form_keeps_contents(p.auth_form, after.auth_form)
            &&& after.auth_form.expanded == p.auth_form.expanded
            &&& (request matches Ok(request) ==> authenticate_submission(p) == Some(request)
                && request.input == collected_input(p.auth_form.fields) && after.auth_form.pending
                && after.auth_form.error_message == p.auth_form.error_message)
            &&& (request matches Err(message) ==> authenticate_submission(p) is None
                && after.auth_form.error_message == Some(message) && after.auth_form.pending
                == p.auth_form.pending)
        }),
        after_auth_action(p, ServiceAuthUiActionView::SubmitAuthenticate) == authenticate_submitted(
            p,
        ),
        after_auth_action(p, ServiceAuthUiActionView::Logout) == logout_submitted(p),
        only_form_changes(p, logout_submitted(p)),
        form_keeps_contents(p.auth_form, logout_submitted(p).auth_form),
        logout_submitted(p).auth_form.expanded == p.auth_form.expanded,
{
}

/// What is done with the controls of the sign-in changes nothing but the form, and never what the
/// form offers.
pub proof fn lemma_controls_change_the_form_alone(
    p: AppStoreConnectWorkspaceProviderView,
    action: ServiceAuthUiActionView,
    key: Seq<char>,
    value: ToggleState,
)
    ensures
        only_form_changes(p, after_auth_action(p, action)),
        after_auth_action(p, action).auth_form.authenticate_descriptor
            == p.auth_form.authenticate_descriptor,
        after_auth_action(p, action).auth_form.logout_available == p.auth_form.logout_available,
        ({
            let after = after_auth_action(
                p,
                ServiceAuthUiActionView::SetToggle { field_key: key, value },
            );
            &&& after.auth_form.pending == p.auth_form.pending
            &&& after.auth_form.error_message == p.auth_form.error_message
            &&& after.auth_form.expanded == p.auth_form.expanded
        }),
{
}

/// Asking for a file changes nothing but the form, and never what the form offers; a failure leaves
/// it open or closed, waiting or not, as it was.
pub proof fn lemma_file_changes_the_form_alone(
    p: AppStoreConnectWorkspaceProviderView,
    key: Seq<char>,
    outcome: Result<Option<Seq<Seq<char>>>, Seq<char>>,
)
    ensures
        ({
            let after = auth_file_picked(p, key, outcome);
            &&& only_form_changes(p, after)
            &&& after.auth_form.authenticate_descriptor == p.auth_form.authenticate_descriptor
            &&& after.auth_form.logout_available == p.auth_form.logout_available
            &&& after.auth_form.pending == p.auth_form.pending
            &&& after.auth_form.expanded == p.auth_form.expanded
        }),
{
}

/// Once the user has signed in or out, everything is fetched anew and the form is closed, with what
/// it offers and what was entered.
pub proof fn lemma_signed_in_fetches_anew(p: AppStoreConnectWorkspaceProviderView)
    ensures
        ({
            let after = auth_finished(p, Ok(()));
            &&& after.descriptor == p.descriptor
            &&& after.auth_state is Loading && after.apps_state is Loading && after.latest_run
                is None
            &&& form_keeps_contents(p.auth_form, after.auth_form)
        }),
{
}

/// A file that is picked for a workflow that is not there changes nothing.
pub proof fn lemma_no_file_without_workflow(
    p: AppStoreConnectWorkspaceProviderView,
    workflow_id: Seq<char>,
    key: Seq<char>,
    outcome: Result<Option<Seq<Seq<char>>>, Seq<char>>,
)
    requires
        forall|i: int|
            0 <= i < p.descriptor.workflows.len() ==> (#[trigger] p.descriptor.workflows[i]).id
                != workflow_id,
    ensures
        workflow_file_picked(p, workflow_id, key, outcome) is Unchanged,
{
    let workflows = p.descriptor.workflows;
    lemma_first_with_id::<ServiceWorkflowDescriptor>(workflows, workflow_id);
    assert forall|i: int| 0 <= i < workflows.len() implies ServiceWorkflowDescriptor::view_id(
        #[trigger] workflows[i],
    ) == workflows[i].id by {}
}

/// While the sign-in is checked the user is told so, and a workflow that waits for an app says so.
pub proof fn lemma_waiting_is_said(
    p: AppStoreConnectWorkspaceProviderView,
    s: ServicesPageStateView,
)
    ensures
        p.auth_state is Loading ==> auth_status(p).headline == "Checking authentication…"@
            && auth_status(p).detail == "Validating the current App Store Connect profile."@,
        workflow_ui(p, s) matches Some(ui) ==> (ui.disabled_reason matches Some(reason)
            ==> reason == "Select an app first."@),
{
}

/// A section that offers no workflow has neither a target nor a workflow selected, and keeps every
/// other choice.
pub proof fn lemma_nothing_is_offered(
    p: AppStoreConnectWorkspaceProviderView,
    s: ServicesPageStateView,
)
    requires
        navigation_workflows_of(p, s).len() == 0,
    ensures
        normalized_workflow(p, s) == (ServicesPageStateView {
            selected_target_id: None,
            selected_workflow_id: None,
            ..s
        }),
{
}

/// The section and the app are put right first, and the target and the workflow for them.
pub proof fn lemma_section_goes_before_workflow(
    p: AppStoreConnectWorkspaceProviderView,
    s: ServicesPageStateView,
)
    ensures
        ({
            let after = normalized(p, s);
            after == normalized_workflow(
                p,
                ServicesPageStateView {
                    navigation_id: after.navigation_id,
                    selected_resource_id: after.selected_resource_id,
                    ..s
                },
            )
        }),
{
}

/// A target that the section offers is selected when it is chosen, and with it the workflow that was
/// selected where it runs against that target, else the first that does.
pub proof fn lemma_target_is_chosen(
    p: AppStoreConnectWorkspaceProviderView,
    s: ServicesPageStateView,
    target_id: Seq<char>,
    i: int,
)
    requires
        navigation_workflows_of(p, s).len() > 0,
        s.selected_target_id != Some(target_id),
        0 <= i < available_targets_of(p, navigation_workflows_of(p, s)).len(),
        available_targets_of(p, navigation_workflows_of(p, s))[i].id == target_id,
    ensures
        ({
            let after = state_after_workflow_action(
                p,
                s,
                ServiceWorkflowUiActionView::SelectTarget { target_id },
            );
            let chosen = ServicesPageStateView { selected_target_id: Some(target_id), ..s };
            let options = available_workflows_of(p, chosen);
            &&& after.selected_target_id == Some(target_id)
            &&& (exists|j: int|
                0 <= j < options.len() && s.selected_workflow_id == Some(
                    (#[trigger] options[j]).id,
                )) ==> after.selected_workflow_id == s.selected_workflow_id
            &&& !(exists|j: int|
                0 <= j < options.len() && s.selected_workflow_id == Some(
                    (#[trigger] options[j]).id,
                )) && options.len() > 0 ==> after.selected_workflow_id == Some(options[0].id)
            &&& options.len() == 0 ==> after.selected_workflow_id is None
        }),
{
    let chosen = ServicesPageStateView { selected_target_id: Some(target_id), ..s };
    let workflows = navigation_workflows_of(p, s);
    let targets = available_targets_of(p, workflows);
    let options = available_workflows_of(p, chosen);
    assert(navigation_workflows_of(p, chosen) =~= workflows) by {
        assert((|workflow: ServiceWorkflowDescriptorView|
            chosen.navigation_id == "release"@ && workflow.kind
                == ServiceWorkflowKind::Release) =~= (
        |workflow: ServiceWorkflowDescriptorView|
            s.navigation_id == "release"@ && workflow.kind
                == ServiceWorkflowKind::Release));
    }
    lemma_choice_is_kept_or_first::<ServiceWorkflowOption>(targets, Some(target_id));
    assert(ServiceWorkflowOption::view_id(targets[i]) == target_id);
    lemma_choice_is_kept_or_first::<ServiceWorkflowOption>(options, s.selected_workflow_id);
    assert forall|j: int| 0 <= j < options.len() implies ServiceWorkflowOption::view_id(
        #[trigger] options[j],
    ) == options[j].id by {}
}

} // verus!
