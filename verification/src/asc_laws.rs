//! What holds of the App Store Connect pages across their steps.

use crate::asc_apps::{AscAppSummary, AscAppSummaryView};
use crate::asc_auth::AscAuthSummaryView;
use crate::asc_builds::{AscBuildListStateView, AscBuildPageView};
use crate::asc_provider::{after_workflow_action, app_after_refresh, apps_of, auth_finished};
use crate::asc_provider::{authenticate_submission, authenticate_submitted, available_targets_of};
use crate::asc_provider::{available_workflows_of, builds_fetch};
use crate::asc_provider::{builds_finished, builds_requested, builds_requested_state, ended_run};
use crate::asc_provider::{has_workflow_form, last_line, list_with_page, more_builds_fetch};
use crate::asc_provider::{more_builds_finished, more_builds_requested, navigation_workflows_of};
use crate::asc_provider::{normalized, normalized_shell, normalized_workflow};
use crate::asc_provider::{refresh_finished, refreshed, selected_app_of};
use crate::asc_provider::{selected_workflow_of, shown_run, state_after_workflow_action};
use crate::asc_provider::{submission, submitted, target_selected, workflow_ui};
use crate::asc_provider::{workflow_output_summary, AppStoreConnectWorkspaceProviderView};
use crate::asc_provider::WorkflowSubmissionView;
use crate::asc_sections::{builds_body, builds_content, BuildsBodyView};
use crate::hub::workflow_supports;
use crate::hub::{ServiceRunState, ServiceWorkflowDescriptor, ServiceWorkflowDescriptorView};
use crate::hub::ServiceWorkflowKind;
use crate::load_state::LoadStateView;
use crate::lookup::{first_with_id, has_id, kept_or_first, lemma_first_with_id};
use crate::lookup::{lemma_kept_or_first_valid, lemma_member_has_id, selected_of, HasId};
use crate::service_auth::closed_form;
use crate::service_workflow::{ServiceWorkflowOption, ServiceWorkflowUiActionView};
use crate::services_provider::ServicesPageStateView;
use crate::text::{lemma_trimmed_idempotent, split_of, trimmed};
use vstd::prelude::*;

verus! {

/// What was put right once stays as it is.
pub proof fn lemma_kept_or_first_idempotent<T: HasId>(items: Seq<T::V>, id: Option<Seq<char>>)
    ensures
        kept_or_first::<T>(items, kept_or_first::<T>(items, id)) == kept_or_first::<T>(items, id),
{
    lemma_kept_or_first_valid::<T>(items, id);
    lemma_kept_or_first_valid::<T>(items, kept_or_first::<T>(items, id));
}

/// Putting right which target and workflow are selected leaves the section as it is, so that it
/// offers the same workflows and targets before and after.
proof fn lemma_normalized_workflow_frame(
    p: AppStoreConnectWorkspaceProviderView,
    s: ServicesPageStateView,
)
    ensures
        normalized_workflow(p, s).navigation_id == s.navigation_id,
        normalized_workflow(p, s).provider_id == s.provider_id,
        normalized_workflow(p, s).selected_resource_id == s.selected_resource_id,
        navigation_workflows_of(p, normalized_workflow(p, s)) == navigation_workflows_of(p, s),
{
}

/// Putting a selection right a second time changes nothing.
pub proof fn lemma_normalize_idempotent(
    p: AppStoreConnectWorkspaceProviderView,
    s: ServicesPageStateView,
)
    ensures
        normalized(p, normalized(p, s)) == normalized(p, s),
{
    let shell = normalized_shell(p, s);
    let once = normalized(p, s);
    lemma_normalized_workflow_frame(p, shell);
    if let LoadStateView::Ready(apps) = p.apps_state {
        lemma_kept_or_first_idempotent::<AscAppSummary>(apps, s.selected_resource_id);
    }
    assert(normalized_shell(p, once) == once);
    lemma_normalize_workflow_idempotent(p, shell);
}

proof fn lemma_normalize_workflow_idempotent(
    p: AppStoreConnectWorkspaceProviderView,
    s: ServicesPageStateView,
)
    ensures
        normalized_workflow(p, normalized_workflow(p, s)) == normalized_workflow(p, s),
{
    let once = normalized_workflow(p, s);
    lemma_normalized_workflow_frame(p, s);
    let workflows = navigation_workflows_of(p, s);
    if workflows.len() > 0 {
        let targets = available_targets_of(p, workflows);
        lemma_kept_or_first_idempotent::<ServiceWorkflowOption>(targets, s.selected_target_id);
        let targeted = ServicesPageStateView { selected_target_id: once.selected_target_id, ..s };
        let options = available_workflows_of(p, targeted);
        assert(available_workflows_of(p, once) == options);
        lemma_kept_or_first_idempotent::<ServiceWorkflowOption>(options, s.selected_workflow_id);
    }
}

/// After a selection was put right, an app is selected wherever one has been loaded, the target is
/// one that the section offers, and the workflow is one that runs against it.
pub proof fn lemma_normalize_selects_what_is_there(
    p: AppStoreConnectWorkspaceProviderView,
    s: ServicesPageStateView,
)
    ensures
        apps_of(p).len() > 0 ==> selected_app_of(p, normalized(p, s)) is Some,
        p.apps_state is Ready && apps_of(p).len() == 0 ==> normalized(
            p,
            s,
        ).selected_resource_id is None,
        p.apps_state !is Ready ==> normalized(p, s).selected_resource_id == s.selected_resource_id,
        ({
            let after = normalized(p, s);
            let workflows = navigation_workflows_of(p, after);
            let targets = available_targets_of(p, workflows);
            let options = available_workflows_of(p, after);
            &&& workflows.len() == 0 ==> after.selected_target_id is None
                && after.selected_workflow_id is None
            &&& workflows.len() > 0 && targets.len() == 0 ==> after.selected_target_id is None
            &&& workflows.len() > 0 && targets.len() > 0 ==> selected_of::<ServiceWorkflowOption>(
                targets,
                after.selected_target_id,
            ) is Some
            &&& workflows.len() > 0 && options.len() == 0 ==> after.selected_workflow_id is None
            &&& options.len() > 0 ==> selected_of::<ServiceWorkflowOption>(
                options,
                after.selected_workflow_id,
            ) is Some && selected_workflow_of(p, after) is Some
        }),
{
    let shell = normalized_shell(p, s);
    let after = normalized(p, s);
    lemma_normalized_workflow_frame(p, shell);
    if let LoadStateView::Ready(apps) = p.apps_state {
        lemma_kept_or_first_valid::<AscAppSummary>(apps, s.selected_resource_id);
    }
    let workflows = navigation_workflows_of(p, after);
    let options = available_workflows_of(p, after);
    if workflows.len() > 0 {
        let targets = available_targets_of(p, workflows);
        lemma_kept_or_first_valid::<ServiceWorkflowOption>(targets, shell.selected_target_id);
        let targeted = ServicesPageStateView {
            selected_target_id: after.selected_target_id,
            ..shell
        };
        assert(available_workflows_of(p, targeted) == options);
        lemma_kept_or_first_valid::<ServiceWorkflowOption>(options, shell.selected_workflow_id);
        if options.len() > 0 {
            lemma_available_workflow_is_offered(p, after);
        }
    } else {
        reveal(Seq::filter);
        assert(options.len() == 0);
    }
}

/// A workflow that can be chosen is one that the section offers, and it runs against the selected
/// target.
pub proof fn lemma_available_workflow_is_offered(
    p: AppStoreConnectWorkspaceProviderView,
    s: ServicesPageStateView,
)
    requires
        selected_of::<ServiceWorkflowOption>(
            available_workflows_of(p, s),
            s.selected_workflow_id,
        ) is Some,
    ensures
        selected_workflow_of(p, s) is Some,
        exists|workflow: ServiceWorkflowDescriptorView| #[trigger]
            navigation_workflows_of(p, s).contains(workflow) && Some(workflow.id)
                == s.selected_workflow_id && workflow_supports(workflow, s.selected_target_id),
{
    let id = s.selected_workflow_id.unwrap();
    let options = available_workflows_of(p, s);
    lemma_first_with_id::<ServiceWorkflowOption>(options, id);
    let option = first_with_id::<ServiceWorkflowOption>(options, id).unwrap();
    let i = choose|i: int| 0 <= i < options.len() && options[i] == option;
    let workflows = navigation_workflows_of(p, s);
    let keep = |workflow: ServiceWorkflowDescriptorView|
        workflow_supports(workflow, s.selected_target_id);
    let kept = workflows.filter(keep);
    let workflow = kept[i];
    workflows.lemma_filter_pred(keep, i);
    assert(kept.contains(workflow));
    workflows.lemma_filter_contains_rev(keep, workflow);
    lemma_member_has_id::<ServiceWorkflowDescriptor>(workflows, workflow);
}

/// The selected workflow is one of the provider's own that releases, and it has a form.
pub proof fn lemma_selected_workflow_has_form(
    p: AppStoreConnectWorkspaceProviderView,
    s: ServicesPageStateView,
)
    requires
        selected_workflow_of(p, s) is Some,
    ensures
        s.selected_workflow_id == Some(selected_workflow_of(p, s).unwrap().id),
        selected_workflow_of(p, s).unwrap().kind == ServiceWorkflowKind::Release,
        s.navigation_id == "release"@,
        has_workflow_form(p, selected_workflow_of(p, s).unwrap().id),
{
    let id = s.selected_workflow_id.unwrap();
    let workflow = selected_workflow_of(p, s).unwrap();
    let workflows = navigation_workflows_of(p, s);
    lemma_first_with_id::<ServiceWorkflowDescriptor>(workflows, id);
    let keep = |workflow: ServiceWorkflowDescriptorView|
        s.navigation_id == "release"@ && workflow.kind == ServiceWorkflowKind::Release;
    p.descriptor.workflows.lemma_filter_contains_rev(keep, workflow);
    let i = choose|i: int| 0 <= i < workflows.len() && workflows[i] == workflow;
    p.descriptor.workflows.lemma_filter_pred(keep, i);
    lemma_member_has_id::<ServiceWorkflowDescriptor>(p.descriptor.workflows, workflow);
}

/// A section other than the release section offers no workflow.
pub proof fn lemma_only_release_offers_workflows(
    p: AppStoreConnectWorkspaceProviderView,
    s: ServicesPageStateView,
)
    requires
        s.navigation_id != "release"@,
    ensures
        navigation_workflows_of(p, s).len() == 0,
        workflow_ui(p, s) is None,
        normalized_workflow(p, s).selected_workflow_id is None,
        normalized_workflow(p, s).selected_target_id is None,
{
    let keep = |workflow: ServiceWorkflowDescriptorView|
        s.navigation_id == "release"@ && workflow.kind == ServiceWorkflowKind::Release;
    p.descriptor.workflows.lemma_all_neg_filter_empty(keep);
    if let Some(id) = s.selected_workflow_id {
        lemma_first_with_id::<ServiceWorkflowDescriptor>(navigation_workflows_of(p, s), id);
    }
}

/// After a refresh the selected app is one of those that came; there is none exactly where none
/// came or they could not be had. Its builds are awaited exactly where there is one.
pub proof fn lemma_refresh_recovers_selection(
    p: AppStoreConnectWorkspaceProviderView,
    s: ServicesPageStateView,
    auth: LoadStateView<AscAuthSummaryView>,
    apps: LoadStateView<Seq<AscAppSummaryView>>,
)
    ensures
        ({
            let after = refresh_finished(p, s, auth, apps);
            let state = ServicesPageStateView {
                selected_resource_id: app_after_refresh(apps, s),
                ..s
            };
            &&& apps_of(after).len() > 0 ==> selected_app_of(after, state) is Some
            &&& apps_of(after).len() == 0 ==> state.selected_resource_id is None
            &&& after.builds_state is Loading <==> state.selected_resource_id is Some
            &&& selected_app_of(after, s) is Some ==> state.selected_resource_id
                == s.selected_resource_id
        }),
{
    if let LoadStateView::Ready(list) = apps {
        lemma_kept_or_first_valid::<AscAppSummary>(list, s.selected_resource_id);
    }
}

/// Whatever becomes of one of the sign-in, the apps and the builds, the others stand as they came;
/// and no step but signing in or out touches the form to sign in.
pub proof fn lemma_loads_are_independent(
    p: AppStoreConnectWorkspaceProviderView,
    s: ServicesPageStateView,
    auth: LoadStateView<AscAuthSummaryView>,
    apps: LoadStateView<Seq<AscAppSummaryView>>,
    app_id: Seq<char>,
    url: Seq<char>,
    page: LoadStateView<AscBuildPageView>,
)
    ensures
        refresh_finished(p, s, auth, apps).auth_state == auth,
        refresh_finished(p, s, auth, apps).apps_state == apps,
        refresh_finished(p, s, auth, apps).auth_form == p.auth_form,
        builds_finished(p, s, app_id, page).auth_state == p.auth_state,
        builds_finished(p, s, app_id, page).apps_state == p.apps_state,
        builds_finished(p, s, app_id, page).auth_form == p.auth_form,
        more_builds_finished(p, s, app_id, url, page).auth_state == p.auth_state,
        more_builds_finished(p, s, app_id, url, page).apps_state == p.apps_state,
        more_builds_finished(p, s, app_id, url, page).auth_form == p.auth_form,
{
}

/// A reply about the builds of an app that is no longer selected changes nothing.
pub proof fn lemma_stale_builds_are_dropped(
    p: AppStoreConnectWorkspaceProviderView,
    s: ServicesPageStateView,
    asked: Seq<char>,
    selected: Seq<char>,
    url: Seq<char>,
    page: LoadStateView<AscBuildPageView>,
)
    requires
        asked != selected,
        builds_fetch(p, selected) is Some,
    ensures
        ({
            let after = builds_requested(p, selected);
            let state = builds_requested_state(p, s, selected);
            &&& builds_finished(after, state, asked, page) == after
            &&& more_builds_finished(after, state, asked, url, page) == after
        }),
{
}

/// The builds that are asked for and come are the builds that are shown.
pub proof fn lemma_builds_round_trip(
    p: AppStoreConnectWorkspaceProviderView,
    s: ServicesPageStateView,
    app_id: Seq<char>,
    page: AscBuildPageView,
)
    requires
        builds_fetch(p, app_id) is Some,
    ensures
        ({
            let asked = builds_requested(p, app_id);
            let state = builds_requested_state(p, s, app_id);
            let after = builds_finished(asked, state, app_id, LoadStateView::Ready(page));
            &&& after.builds_state matches LoadStateView::Ready(list) && list.builds == page.builds
                && list.next_page_url == page.next_page_url
            &&& selected_app_of(after, state) is Some
        }),
{
    lemma_first_with_id::<AscAppSummary>(apps_of(p), app_id);
}

/// While a page of builds is on its way, no other is asked for.
pub proof fn lemma_one_page_at_a_time(
    p: AppStoreConnectWorkspaceProviderView,
    s: ServicesPageStateView,
)
    requires
        more_builds_fetch(p, s) is Some,
    ensures
        more_builds_fetch(more_builds_requested(p, s), s) is None,
        more_builds_requested(more_builds_requested(p, s), s) == more_builds_requested(p, s),
{
}

/// A next page that comes stands behind the builds that were there; one that fails leaves them,
/// and can be asked for again.
pub proof fn lemma_more_builds_extend(
    p: AppStoreConnectWorkspaceProviderView,
    s: ServicesPageStateView,
    page: AscBuildPageView,
    message: Seq<char>,
)
    requires
        more_builds_fetch(p, s) is Some,
    ensures
        ({
            let fetch = more_builds_fetch(p, s).unwrap();
            let url = fetch.next_page_url.unwrap();
            let asked = more_builds_requested(p, s);
            let before = p.builds_state->Ready_0.builds;
            let came = more_builds_finished(
                asked,
                s,
                fetch.app_id,
                url,
                LoadStateView::Ready(page),
            );
            let failed = more_builds_finished(
                asked,
                s,
                fetch.app_id,
                url,
                LoadStateView::Error(message),
            );
            &&& came.builds_state matches LoadStateView::Ready(list) && list.builds == before
                + page.builds && !list.is_loading_more
            &&& failed.builds_state matches LoadStateView::Ready(list) && list.builds == before
                && list.load_more_error == Some(message)
            &&& more_builds_fetch(failed, s) == more_builds_fetch(p, s)
        }),
{
    let id = s.selected_resource_id.unwrap();
    lemma_first_with_id::<AscAppSummary>(apps_of(p), id);
}

/// No reply makes the list of builds shorter or changes one that is in it.
pub proof fn lemma_more_builds_keep_prefix(
    list: AscBuildListStateView,
    page: LoadStateView<AscBuildPageView>,
)
    ensures
        list.builds.is_prefix_of(list_with_page(list, page).builds),
{
    assert(list_with_page(list, page).builds.take(list.builds.len() as int) =~= list.builds);
}

/// A page that was taken in is not taken in a second time, unless it names itself as the next.
pub proof fn lemma_page_is_taken_once(
    p: AppStoreConnectWorkspaceProviderView,
    s: ServicesPageStateView,
    app_id: Seq<char>,
    url: Seq<char>,
    page: AscBuildPageView,
    again: LoadStateView<AscBuildPageView>,
)
    requires
        page.next_page_url != Some(url),
    ensures
        ({
            let once = more_builds_finished(p, s, app_id, url, LoadStateView::Ready(page));
            more_builds_finished(once, s, app_id, url, again) == once
        }),
{
}

/// What the builds section offers can be done: where the button for more builds can be pressed, the
/// next page is fetched, and where the button to refresh can be pressed, the first page is.
pub proof fn lemma_builds_section_offers_what_can_be_done(
    p: AppStoreConnectWorkspaceProviderView,
    s: ServicesPageStateView,
)
    ensures
        builds_body(p, s) matches BuildsBodyView::Table { load_more: Some(more), .. } ==> (
        more.has_button && !more.disabled <==> more_builds_fetch(p, s) is Some),
        builds_body(p, s) matches BuildsBodyView::Table { load_more: None, .. }
            ==> more_builds_fetch(p, s) is None,
        !builds_content(p, s).refresh_disabled ==> builds_fetch(
            p,
            s.selected_resource_id.unwrap(),
        ) is Some,
{
}

/// A workflow that is started is the selected one, is asked for with what was entered, and shows
/// as running.
pub proof fn lemma_started_workflow_shows_as_running(
    p: AppStoreConnectWorkspaceProviderView,
    s: ServicesPageStateView,
    input: Map<Seq<char>, Seq<char>>,
)
    requires
        selected_app_of(p, s) is Some,
        selected_workflow_of(p, s) is Some,
    ensures
        submission(p, s, Ok(input)) matches WorkflowSubmissionView::Started { request, .. }
            && request.input == input && Some(request.workflow) == s.selected_workflow_id
            && request.target_id == s.selected_target_id,
        shown_run(submitted(p, s, Ok(input)), s) matches Some(run) && run.state
            == ServiceRunState::Running,
{
    lemma_selected_workflow_has_form(p, s);
}

/// Where the controls of the workflows are shown and an app is selected, a filled-in form is
/// never ignored; and nothing is run for a form that is not filled in.
pub proof fn lemma_shown_workflow_can_be_run(
    p: AppStoreConnectWorkspaceProviderView,
    s: ServicesPageStateView,
    input: Result<Map<Seq<char>, Seq<char>>, Seq<char>>,
)
    requires
        workflow_ui(p, s) is Some,
        selected_app_of(p, s) is Some,
    ensures
        workflow_ui(p, s).unwrap().disabled_reason is None,
        input is Ok ==> submission(p, s, input) is Started,
        input is Err ==> submission(p, s, input) is Rejected && submitted(p, s, input) == p,
{
}

/// The run that ends is shown beside the workflow and target that it was started for, and beside
/// no other.
pub proof fn lemma_ended_run_is_shown_where_it_belongs(
    p: AppStoreConnectWorkspaceProviderView,
    s: ServicesPageStateView,
    workflow_id: Seq<char>,
    target_id: Option<Seq<char>>,
    label: Seq<char>,
    outcome: Result<Seq<char>, Seq<char>>,
)
    ensures
        ({
            let after = AppStoreConnectWorkspaceProviderView {
                latest_run: Some(ended_run(workflow_id, target_id, label, outcome)),
                ..p
            };
            &&& shown_run(after, s) is Some <==> s.selected_workflow_id == Some(workflow_id)
                && s.selected_target_id == target_id
            &&& shown_run(after, s) matches Some(run) ==> run.state == (if outcome is Ok {
                ServiceRunState::Succeeded
            } else {
                ServiceRunState::Failed
            })
        }),
{
}

/// Choosing another target or workflow takes the run of the former away.
pub proof fn lemma_choice_hides_former_run(
    p: AppStoreConnectWorkspaceProviderView,
    s: ServicesPageStateView,
    id: Seq<char>,
)
    ensures
        ({
            let target = ServiceWorkflowUiActionView::SelectTarget { target_id: id };
            s.selected_target_id != Some(id) ==> shown_run(
                after_workflow_action(p, s, target),
                state_after_workflow_action(p, s, target),
            ) is None
        }),
        ({
            let workflow = ServiceWorkflowUiActionView::SelectWorkflow { workflow_id: id };
            s.selected_workflow_id != Some(id) ==> shown_run(
                after_workflow_action(p, s, workflow),
                state_after_workflow_action(p, s, workflow),
            ) is None
        }),
{
}

/// A target that the section offers stays chosen once it is chosen, and the workflow that is
/// selected with it runs against it wherever one does.
pub proof fn lemma_chosen_target_is_kept(
    p: AppStoreConnectWorkspaceProviderView,
    s: ServicesPageStateView,
    target_id: Seq<char>,
)
    requires
        s.selected_target_id != Some(target_id),
        has_id::<ServiceWorkflowOption>(
            available_targets_of(p, navigation_workflows_of(p, s)),
            target_id,
        ),
        navigation_workflows_of(p, s).len() > 0,
    ensures
        target_selected(p, s, target_id).selected_target_id == Some(target_id),
        available_workflows_of(p, target_selected(p, s, target_id)).len() > 0
            ==> selected_of::<ServiceWorkflowOption>(
            available_workflows_of(p, target_selected(p, s, target_id)),
            target_selected(p, s, target_id).selected_workflow_id,
        ) is Some,
{
    let chosen = ServicesPageStateView { selected_target_id: Some(target_id), ..s };
    assert(navigation_workflows_of(p, chosen) == navigation_workflows_of(p, s));
    let after = target_selected(p, s, target_id);
    assert(after == normalized_workflow(p, chosen));
    let options = available_workflows_of(p, after);
    assert(after.selected_target_id == Some(target_id));
    assert(available_workflows_of(p, chosen) == options);
    lemma_kept_or_first_valid::<ServiceWorkflowOption>(options, s.selected_workflow_id);
}

/// Signing in either sends a request and waits, or shows what is missing and sends nothing. A
/// failure leaves what was entered, so that it can be sent again as it is.
pub proof fn lemma_failed_sign_in_can_be_repeated(
    p: AppStoreConnectWorkspaceProviderView,
    message: Seq<char>,
)
    ensures
        authenticate_submission(p) is Some ==> authenticate_submitted(p).auth_form.pending,
        authenticate_submission(p) is None ==> authenticate_submitted(
            p,
        ).auth_form.error_message is Some,
        ({
            let after = auth_finished(authenticate_submitted(p), Err(message));
            &&& authenticate_submission(after) == authenticate_submission(p)
            &&& !after.auth_form.pending
            &&& after.auth_form.error_message == Some(message)
        }),
{
    let after = auth_finished(authenticate_submitted(p), Err(message));
    assert(after.auth_form.fields == p.auth_form.fields);
    assert(after.auth_form.authenticate_descriptor == p.auth_form.authenticate_descriptor);
}

/// Signing in or out with success closes the form and fetches everything anew.
pub proof fn lemma_signed_in_starts_anew(p: AppStoreConnectWorkspaceProviderView)
    ensures
        ({
            let after = auth_finished(p, Ok(()));
            &&& after.auth_form == closed_form(p.auth_form)
            &&& after.auth_state is Loading
            &&& after.apps_state is Loading
            &&& after.latest_run is None
            &&& after.descriptor == p.descriptor
            &&& after == refreshed(after)
        }),
{
}

/// A workflow's output comes down to words: never to nothing, and never with whitespace around.
pub proof fn lemma_output_summary_says_something(output: Seq<char>)
    ensures
        workflow_output_summary(output).len() > 0,
        trimmed(workflow_output_summary(output)) == workflow_output_summary(output),
{
    reveal_strlit("Workflow completed successfully.");
    let lines = split_of(output, '\n');
    lemma_last_line(lines);
    if last_line(lines) is None {
        lemma_plain_text_is_trimmed("Workflow completed successfully."@);
    }
}

proof fn lemma_last_line(lines: Seq<Seq<char>>)
    ensures
        last_line(lines) matches Some(line) ==> line.len() > 0 && trimmed(line) == line,
    decreases lines.len(),
{
    if lines.len() > 0 {
        if trimmed(lines.last()).len() > 0 {
            lemma_trimmed_idempotent(lines.last());
        } else {
            lemma_last_line(lines.drop_last());
        }
    }
}

proof fn lemma_plain_text_is_trimmed(text: Seq<char>)
    requires
        text.len() > 0,
        !crate::text::is_whitespace(text[0]),
        !crate::text::is_whitespace(text.last()),
    ensures
        trimmed(text) == text,
{
}

} // verus!
