//! What the App Store Connect pages ask for, run and show, said of what was loaded and chosen.

use crate::appearance::Severity;
use crate::asc_apps::{AscAppSummary, AscAppSummaryView};
use crate::asc_auth::AscAuthSummaryView;
use crate::asc_builds::{AscBuildListStateView, AscBuildPageView};
use crate::asc_provider::{after_auth_action, after_workflow_action, app_after_refresh, auth_effect};
use crate::asc_provider::{auth_file_picked, auth_finished, auth_status, auth_ui};
use crate::asc_provider::{authenticate_submission, authenticate_submitted, available_targets_of};
use crate::asc_provider::{available_workflows_of, builds_fetch, builds_finished, builds_requested};
use crate::asc_provider::{builds_requested_state, ended_run, form_after_run, has_workflow_form};
use crate::asc_provider::last_line;
use crate::asc_provider::{logout_submitted, more_builds_fetch};
use crate::asc_provider::{more_builds_finished, more_builds_requested, navigation_workflows_of};
use crate::asc_provider::{new_provider, normalized, normalized_workflow};
use crate::asc_provider::{refresh_finished, refreshed, resource_menu_of};
use crate::asc_provider::{selected_app_of, selected_build_of, selected_workflow_of, shown_run};
use crate::asc_provider::{state_after_workflow_action, submission, submitted};
use crate::asc_provider::{workflow_effect, workflow_file_picked};
use crate::asc_provider::{workflow_output_summary, workflow_ui};
use crate::asc_provider::{AppStoreConnectWorkspaceProviderView, AuthUiEffectView};
use crate::asc_provider::{WorkflowFormUpdateView, WorkflowSubmissionView, WorkflowUiEffectView};
use crate::hub::{workflow_supports, ServiceAuthAction, ServiceAuthActionRequestView};
use crate::hub::ServiceNavigationItem;
use crate::hub::{ServiceProviderDescriptorView, ServiceResourceRefView, ServiceRunState};
use crate::hub::{ServiceTargetDescriptorView, ServiceWorkflowDescriptor};
use crate::hub::{ServiceWorkflowDescriptorView, ServiceWorkflowKind};
use crate::load_state::LoadStateView;
use crate::lookup::{lemma_choice_is_kept_or_first, lemma_first_is_found, lemma_first_with_id};
use crate::lookup::{first_with_id, kept_or_first, lemma_selected_is_first, HasId};
use crate::service_auth::{ServiceAuthFieldStateView, ServiceAuthUiActionView, ToggleState};
use crate::service_workflow::{ServiceWorkflowOption, ServiceWorkflowOptionView};
use crate::service_workflow::ServiceWorkflowUiActionView;
use crate::services_provider::ServicesPageStateView;
use crate::text::{is_blank, lemma_split_at, lemma_split_whole, lemma_trimmed_empty_iff_blank};
use crate::text::{split_of, trimmed};
use vstd::prelude::*;

verus! {

/// The app at `k` is the first that `id` names.
pub open spec fn names_app_at(apps: Seq<AscAppSummaryView>, id: Option<Seq<char>>, k: int) -> bool {
    &&& 0 <= k < apps.len()
    &&& id == Some(apps[k].id)
    &&& forall|j: int| 0 <= j < k ==> id != Some((#[trigger] apps[j]).id)
}

/// `id` names none of the apps.
pub open spec fn names_no_app(apps: Seq<AscAppSummaryView>, id: Option<Seq<char>>) -> bool {
    forall|j: int| 0 <= j < apps.len() ==> id != Some((#[trigger] apps[j]).id)
}

/// The workflow at `w` is the first one that releases and that `id` names.
pub open spec fn names_release_at(
    workflows: Seq<ServiceWorkflowDescriptorView>,
    id: Option<Seq<char>>,
    w: int,
) -> bool {
    &&& 0 <= w < workflows.len()
    &&& workflows[w].kind == ServiceWorkflowKind::Release
    &&& id == Some(workflows[w].id)
    &&& forall|j: int|
        0 <= j < w && (#[trigger] workflows[j]).kind == ServiceWorkflowKind::Release ==> id != Some(
            workflows[j].id,
        )
}

/// `id` names no workflow that releases.
pub open spec fn names_no_release(
    workflows: Seq<ServiceWorkflowDescriptorView>,
    id: Option<Seq<char>>,
) -> bool {
    forall|j: int|
        0 <= j < workflows.len() && (#[trigger] workflows[j]).kind == ServiceWorkflowKind::Release
            ==> id != Some(workflows[j].id)
}

/// The request is made of App Store Connect, and of the app.
pub open spec fn asks_about_app(
    resource: Option<ServiceResourceRefView>,
    app: AscAppSummaryView,
) -> bool {
    resource matches Some(r) && r.provider_id == "app-store-connect"@ && r.kind == "app"@
        && r.external_id == app.id && r.label == app.name
}

proof fn lemma_app_is_selected(
    p: AppStoreConnectWorkspaceProviderView,
    s: ServicesPageStateView,
    apps: Seq<AscAppSummaryView>,
)
    requires
        p.apps_state == LoadStateView::Ready(apps),
    ensures
        forall|k: int| #[trigger]
            names_app_at(apps, s.selected_resource_id, k) ==> selected_app_of(p, s) == Some(
                apps[k],
            ),
        names_no_app(apps, s.selected_resource_id) <==> selected_app_of(p, s) is None,
        selected_app_of(p, s) is Some ==> exists|k: int| #[trigger]
            names_app_at(apps, s.selected_resource_id, k),
{
    let id = s.selected_resource_id;
    let k = lemma_selected_is_first::<AscAppSummary>(apps, id);
    if k < apps.len() {
        assert(names_app_at(apps, id, k));
        assert(AscAppSummary::view_id(apps[k]) == apps[k].id);
    }
    assert forall|m: int| #[trigger] names_app_at(apps, id, m) implies selected_app_of(p, s) == Some(
        apps[m],
    ) by {
        assert(AscAppSummary::view_id(apps[m]) == apps[m].id);
        if k < m {
            assert(id != Some(apps[k].id));
        } else if m < k {
            assert(id != Some(AscAppSummary::view_id(apps[m])));
        }
    }
    if names_no_app(apps, id) && k < apps.len() {
        assert(id != Some(apps[k].id));
    }
    if k == apps.len() {
        assert forall|j: int| 0 <= j < apps.len() implies id != Some((#[trigger] apps[j]).id) by {
            assert(id != Some(AscAppSummary::view_id(apps[j])));
        }
    }
}

proof fn lemma_release_is_selected(
    p: AppStoreConnectWorkspaceProviderView,
    s: ServicesPageStateView,
    w: int,
)
    requires
        s.navigation_id == "release"@,
        names_release_at(p.descriptor.workflows, s.selected_workflow_id, w),
    ensures
        selected_workflow_of(p, s) == Some(p.descriptor.workflows[w]),
{
    let all = p.descriptor.workflows;
    let pred = |workflow: ServiceWorkflowDescriptorView|
        s.navigation_id == "release"@ && workflow.kind == ServiceWorkflowKind::Release;
    let before = all.take(w);
    let found = all[w];
    let after = all.skip(w + 1);
    assert(all =~= before + (seq![found] + after));
    Seq::filter_distributes_over_add(before, seq![found] + after, pred);
    Seq::filter_distributes_over_add(seq![found], after, pred);
    reveal(Seq::filter);
    assert(seq![found].drop_last() =~= Seq::empty());
    assert(seq![found].filter(pred) =~= seq![found]);
    let offered = all.filter(pred);
    let k = before.filter(pred).len() as int;
    assert(offered =~= before.filter(pred) + (seq![found] + after.filter(pred)));
    assert forall|j: int| 0 <= j < k implies ServiceWorkflowDescriptor::view_id(
        #[trigger] offered[j],
    ) != found.id by {
        assert(offered[j] == before.filter(pred)[j]);
        before.lemma_filter_pred(pred, j);
        before.lemma_filter_contains_rev(pred, before.filter(pred)[j]);
        let i = choose|i: int| 0 <= i < before.len() && before[i] == offered[j];
        assert(all[i] == offered[j]);
    }
    assert(offered[k] == found);
    lemma_first_is_found::<ServiceWorkflowDescriptor>(offered, found.id, k);
    assert(navigation_workflows_of(p, s) == offered);
}

proof fn lemma_no_release_is_selected(
    p: AppStoreConnectWorkspaceProviderView,
    s: ServicesPageStateView,
)
    requires
        s.navigation_id != "release"@ || names_no_release(
            p.descriptor.workflows,
            s.selected_workflow_id,
        ),
    ensures
        selected_workflow_of(p, s) is None,
{
    let all = p.descriptor.workflows;
    let pred = |workflow: ServiceWorkflowDescriptorView|
        s.navigation_id == "release"@ && workflow.kind == ServiceWorkflowKind::Release;
    let offered = all.filter(pred);
    if let Some(id) = s.selected_workflow_id {
        assert forall|j: int| 0 <= j < offered.len() implies ServiceWorkflowDescriptor::view_id(
            #[trigger] offered[j],
        ) != id by {
            all.lemma_filter_pred(pred, j);
            all.lemma_filter_contains_rev(pred, offered[j]);
            let i = choose|i: int| 0 <= i < all.len() && all[i] == offered[j];
            assert(all[i].kind == ServiceWorkflowKind::Release);
        }
        lemma_first_is_found::<ServiceWorkflowDescriptor>(offered, id, offered.len() as int);
        assert(navigation_workflows_of(p, s) == offered);
    }
}

/// A filled-in form starts the selected workflow, for the selected app and target, with what was
/// entered; the page then says so.
pub proof fn lemma_workflow_runs_for_selected_app(
    p: AppStoreConnectWorkspaceProviderView,
    s: ServicesPageStateView,
    apps: Seq<AscAppSummaryView>,
    k: int,
    w: int,
    input: Map<Seq<char>, Seq<char>>,
)
    requires
        p.apps_state == LoadStateView::Ready(apps),
        names_app_at(apps, s.selected_resource_id, k),
        s.navigation_id == "release"@,
        names_release_at(p.descriptor.workflows, s.selected_workflow_id, w),
    ensures
        submission(p, s, Ok(input)) matches WorkflowSubmissionView::Started {
            workflow_id,
            target_id,
            workflow_label,
            request,
        } && Some(workflow_id) == s.selected_workflow_id && target_id == s.selected_target_id
            && workflow_label == p.descriptor.workflows[w].label && request.provider_id
            == "app-store-connect"@ && Some(request.workflow) == s.selected_workflow_id
            && request.target_id == s.selected_target_id && asks_about_app(
            request.resource,
            apps[k],
        ) && request.artifact is None && request.input == input,
        ({
            let after = submitted(p, s, Ok(input));
            let label = p.descriptor.workflows[w].label;
            &&& after.latest_run matches Some(run) && Some(run.workflow) == s.selected_workflow_id
                && run.target_id == s.selected_target_id && run.state == ServiceRunState::Running
                && run.headline == label && run.detail == "Running "@ + label + " for "@
                + apps[k].name + "."@ && run.output is None
            &&& after == (AppStoreConnectWorkspaceProviderView {
                latest_run: after.latest_run,
                ..p
            })
        }),
{
    lemma_app_is_selected(p, s, apps);
    lemma_release_is_selected(p, s, w);
}

/// A workflow that is started is one for the selected app, whichever app that is.
pub proof fn lemma_started_workflow_names_selected_app(
    p: AppStoreConnectWorkspaceProviderView,
    s: ServicesPageStateView,
    input: Result<Map<Seq<char>, Seq<char>>, Seq<char>>,
)
    ensures
        submission(p, s, input) matches WorkflowSubmissionView::Started { request, .. } ==> (
        input is Ok && (request.resource matches Some(r) && r.kind == "app"@ && Some(r.external_id)
            == s.selected_resource_id)),
{
    if let LoadStateView::Ready(apps) = p.apps_state {
        lemma_app_is_selected(p, s, apps);
    } else {
        if let Some(id) = s.selected_resource_id {
            lemma_first_with_id::<AscAppSummary>(Seq::empty(), id);
        }
    }
}

/// A form that is not filled in shows what is wrong with it, at the selected workflow, and nothing
/// is run for it.
pub proof fn lemma_unfilled_form_is_rejected(
    p: AppStoreConnectWorkspaceProviderView,
    s: ServicesPageStateView,
    apps: Seq<AscAppSummaryView>,
    k: int,
    w: int,
    message: Seq<char>,
)
    requires
        p.apps_state == LoadStateView::Ready(apps),
        names_app_at(apps, s.selected_resource_id, k),
        s.navigation_id == "release"@,
        names_release_at(p.descriptor.workflows, s.selected_workflow_id, w),
    ensures
        submission(p, s, Err(message)) matches WorkflowSubmissionView::Rejected {
            workflow_id,
            error,
        } && Some(workflow_id) == s.selected_workflow_id && error == message,
        submitted(p, s, Err(message)) == p,
{
    lemma_app_is_selected(p, s, apps);
    lemma_release_is_selected(p, s, w);
}

/// Nothing is run without an app that is selected and loaded, nor without a workflow that releases
/// and is selected, nor outside the release section.
pub proof fn lemma_nothing_runs_unselected(
    p: AppStoreConnectWorkspaceProviderView,
    s: ServicesPageStateView,
    input: Result<Map<Seq<char>, Seq<char>>, Seq<char>>,
)
    requires
        ({
            ||| p.apps_state !is Ready
            ||| p.apps_state matches LoadStateView::Ready(apps) && names_no_app(
                apps,
                s.selected_resource_id,
            )
            ||| s.navigation_id != "release"@
            ||| names_no_release(p.descriptor.workflows, s.selected_workflow_id)
        }),
    ensures
        submission(p, s, input) is Ignored,
        submitted(p, s, input) == p,
{
    if p.apps_state !is Ready {
        if let Some(id) = s.selected_resource_id {
            lemma_first_with_id::<AscAppSummary>(Seq::empty(), id);
        }
    } else {
        lemma_app_is_selected(p, s, p.apps_state->Ready_0);
    }
    if s.navigation_id != "release"@ || names_no_release(
        p.descriptor.workflows,
        s.selected_workflow_id,
    ) {
        lemma_no_release_is_selected(p, s);
    }
}

/// The builds that are asked for are those of the app asked about: the newest, as many as fit a
/// page. While they come, that app is selected, its builds show as loading, and the run of a
/// workflow for another app is gone.
pub proof fn lemma_builds_are_asked_of_their_app(
    p: AppStoreConnectWorkspaceProviderView,
    s: ServicesPageStateView,
    apps: Seq<AscAppSummaryView>,
    app_id: Seq<char>,
    k: int,
)
    requires
        p.apps_state == LoadStateView::Ready(apps),
        names_app_at(apps, Some(app_id), k),
    ensures
        builds_fetch(p, app_id) matches Some(fetch) && fetch.app_id == app_id
            && fetch.next_page_url is None && fetch.request.provider_id == "app-store-connect"@
            && fetch.request.operation == "list_builds"@ && asks_about_app(
            fetch.request.resource,
            apps[k],
        ) && fetch.request.artifact is None && fetch.request.input == Map::empty().insert(
            "limit"@,
            "50"@,
        ).insert("sort"@, "-uploadedDate"@),
        ({
            let after = builds_requested(p, app_id);
            let state = builds_requested_state(p, s, app_id);
            &&& after.builds_state is Loading
            &&& after.latest_run is None
            &&& after.apps_state == p.apps_state && after.auth_state == p.auth_state
            &&& after.auth_form == p.auth_form && after.descriptor == p.descriptor
            &&& state.selected_resource_id == Some(app_id)
            &&& state.provider_id == s.provider_id && state.navigation_id == s.navigation_id
            &&& state.selected_target_id == s.selected_target_id
            &&& state.selected_workflow_id == s.selected_workflow_id
        }),
{
    let asked = ServicesPageStateView { selected_resource_id: Some(app_id), ..s };
    lemma_app_is_selected(p, asked, apps);
}

/// Whatever fetch of builds is made, it is one of the builds of the app asked about.
pub proof fn lemma_fetch_names_its_app(
    p: AppStoreConnectWorkspaceProviderView,
    s: ServicesPageStateView,
    app_id: Seq<char>,
)
    ensures
        builds_fetch(p, app_id) matches Some(fetch) ==> (fetch.app_id == app_id
            && (fetch.request.resource matches Some(r) && r.kind == "app"@ && r.external_id
            == app_id)),
        more_builds_fetch(p, s) matches Some(fetch) ==> (Some(fetch.app_id)
            == s.selected_resource_id && (fetch.request.resource matches Some(r) && r.kind
            == "app"@ && Some(r.external_id) == s.selected_resource_id)),
{
    match p.apps_state {
        LoadStateView::Ready(apps) => {
            lemma_first_with_id::<AscAppSummary>(apps, app_id);
            lemma_app_is_selected(p, s, apps);
        },
        _ => {
            lemma_first_with_id::<AscAppSummary>(Seq::empty(), app_id);
            if let Some(id) = s.selected_resource_id {
                lemma_first_with_id::<AscAppSummary>(Seq::empty(), id);
            }
        },
    }
}

/// For an app that is not loaded nothing is fetched: the list of builds is emptied, and what is
/// selected stays selected.
pub proof fn lemma_unknown_app_fetches_nothing(
    p: AppStoreConnectWorkspaceProviderView,
    s: ServicesPageStateView,
    app_id: Seq<char>,
)
    requires
        p.apps_state matches LoadStateView::Ready(apps) ==> names_no_app(apps, Some(app_id)),
    ensures
        builds_fetch(p, app_id) is None,
        builds_requested_state(p, s, app_id) == s,
        ({
            let after = builds_requested(p, app_id);
            &&& after.builds_state matches LoadStateView::Ready(list) && list.builds.len() == 0
                && list.next_page_url is None && !list.is_loading_more && list.load_more_error is None
            &&& after.latest_run == p.latest_run
            &&& after.apps_state == p.apps_state && after.auth_state == p.auth_state
            &&& after.auth_form == p.auth_form && after.descriptor == p.descriptor
        }),
{
    let asked = ServicesPageStateView { selected_resource_id: Some(app_id), ..s };
    match p.apps_state {
        LoadStateView::Ready(apps) => {
            lemma_app_is_selected(p, asked, apps);
        },
        _ => {
            lemma_first_with_id::<AscAppSummary>(Seq::empty(), app_id);
        },
    }
}

/// The next page is the one that the list names, of the builds of the selected app. It is asked for
/// exactly where there is one and none is on its way.
pub proof fn lemma_next_page_is_the_one_named(
    p: AppStoreConnectWorkspaceProviderView,
    s: ServicesPageStateView,
    apps: Seq<AscAppSummaryView>,
    k: int,
    list: AscBuildListStateView,
)
    requires
        p.apps_state == LoadStateView::Ready(apps),
        names_app_at(apps, s.selected_resource_id, k),
        p.builds_state == LoadStateView::Ready(list),
    ensures
        more_builds_fetch(p, s) is Some <==> list.next_page_url is Some && !list.is_loading_more,
        more_builds_fetch(p, s) matches Some(fetch) ==> (fetch.app_id == apps[k].id
            && fetch.next_page_url == list.next_page_url && fetch.request.provider_id
            == "app-store-connect"@ && fetch.request.operation == "list_builds"@
            && asks_about_app(fetch.request.resource, apps[k]) && fetch.request.artifact is None
            && fetch.request.input == Map::empty().insert("next"@, list.next_page_url.unwrap())),
        more_builds_fetch(p, s) is Some ==> (more_builds_requested(p, s).builds_state matches
            LoadStateView::Ready(after) && after.is_loading_more && after.load_more_error is None
            && after.builds == list.builds && after.next_page_url == list.next_page_url),
        more_builds_fetch(p, s) is None ==> more_builds_requested(p, s) == p,
        ({
            let after = more_builds_requested(p, s);
            &&& after.apps_state == p.apps_state && after.auth_state == p.auth_state
            &&& after.auth_form == p.auth_form && after.descriptor == p.descriptor
            &&& after.latest_run == p.latest_run
        }),
{
    lemma_app_is_selected(p, s, apps);
}

/// Builds that fail to load say why; those that load show, with nothing left over from before.
pub proof fn lemma_builds_show_how_they_loaded(
    p: AppStoreConnectWorkspaceProviderView,
    s: ServicesPageStateView,
    app_id: Seq<char>,
    page: AscBuildPageView,
    message: Seq<char>,
)
    requires
        s.selected_resource_id == Some(app_id),
    ensures
        builds_finished(p, s, app_id, LoadStateView::Error(message)).builds_state
            == LoadStateView::<AscBuildListStateView>::Error(message),
        builds_finished(p, s, app_id, LoadStateView::Ready(page)).builds_state matches
            LoadStateView::Ready(list) && list.builds == page.builds && list.next_page_url
            == page.next_page_url && !list.is_loading_more && list.load_more_error is None,
        builds_finished(p, s, app_id, LoadStateView::Ready(page)).latest_run == p.latest_run,
        builds_finished(p, s, app_id, LoadStateView::Ready(page)).descriptor == p.descriptor,
{
}

/// The newest build is the first of the list, and there is none while the list is not there.
pub proof fn lemma_latest_build_is_first(p: AppStoreConnectWorkspaceProviderView)
    ensures
        p.builds_state matches LoadStateView::Ready(list) ==> selected_build_of(p) == (
        if list.builds.len() > 0 {
            Some(list.builds[0])
        } else {
            None
        }),
        p.builds_state !is Ready ==> selected_build_of(p) is None,
{
}

/// Before anything was loaded, and whenever everything is fetched anew, the sign-in and the apps are
/// awaited, no builds are shown, and no run of a workflow is.
pub proof fn lemma_everything_is_awaited(
    p: AppStoreConnectWorkspaceProviderView,
    descriptor: ServiceProviderDescriptorView,
)
    ensures
        ({
            let fresh = new_provider(descriptor);
            let after = refreshed(p);
            &&& fresh.descriptor == descriptor
            &&& fresh.auth_state is Loading && after.auth_state is Loading
            &&& fresh.apps_state is Loading && after.apps_state is Loading
            &&& fresh.latest_run is None && after.latest_run is None
            &&& after.builds_state == fresh.builds_state
            &&& (after.builds_state matches LoadStateView::Ready(list) && list.builds.len() == 0
                && list.next_page_url is None && !list.is_loading_more
                && list.load_more_error is None)
            &&& after.descriptor == p.descriptor && after.auth_form == p.auth_form
        }),
{
}

/// Apps that come keep the selected one selected while it is among them, else the first of them is
/// selected. Where none come, or they fail to, none is. Nothing else changes with them.
pub proof fn lemma_apps_that_come(
    p: AppStoreConnectWorkspaceProviderView,
    s: ServicesPageStateView,
    auth: LoadStateView<AscAuthSummaryView>,
    apps: Seq<AscAppSummaryView>,
    message: Seq<char>,
)
    ensures
        !names_no_app(apps, s.selected_resource_id) ==> app_after_refresh(
            LoadStateView::Ready(apps),
            s,
        ) == s.selected_resource_id,
        names_no_app(apps, s.selected_resource_id) ==> app_after_refresh(
            LoadStateView::Ready(apps),
            s,
        ) == (if apps.len() > 0 {
            Some(apps[0].id)
        } else {
            None
        }),
        app_after_refresh(LoadStateView::Error(message), s) is None,
        ({
            let after = refresh_finished(p, s, auth, LoadStateView::Ready(apps));
            let failed = refresh_finished(p, s, auth, LoadStateView::Error(message));
            &&& after.latest_run == p.latest_run && failed.latest_run == p.latest_run
            &&& after.descriptor == p.descriptor && failed.descriptor == p.descriptor
            &&& (failed.builds_state matches LoadStateView::Ready(list) && list.builds.len() == 0
                && list.next_page_url is None && !list.is_loading_more)
            &&& apps.len() > 0 ==> after.builds_state is Loading
            &&& apps.len() == 0 ==> (after.builds_state matches LoadStateView::Ready(list)
                && list.builds.len() == 0 && list.next_page_url is None)
        }),
{
    lemma_choice_is_kept_or_first::<AscAppSummary>(apps, s.selected_resource_id);
    if !names_no_app(apps, s.selected_resource_id) {
        let j = choose|j: int|
            0 <= j < apps.len() && s.selected_resource_id == Some((#[trigger] apps[j]).id);
        assert(s.selected_resource_id == Some(AscAppSummary::view_id(apps[j])));
    } else {
        assert forall|j: int| 0 <= j < apps.len() implies s.selected_resource_id != Some(
            AscAppSummary::view_id(#[trigger] apps[j]),
        ) by {
            assert(s.selected_resource_id != Some(apps[j].id));
        }
    }
    assert(apps.len() > 0 ==> AscAppSummary::view_id(apps[0]) == apps[0].id);
}

/// Putting a selection right keeps the section while the provider has it, else goes to the default
/// one; keeps the app while it is loaded, else takes the first; and keeps the target and the
/// workflow while they are offered, else takes the first of each.
pub proof fn lemma_valid_choices_are_kept(
    p: AppStoreConnectWorkspaceProviderView,
    s: ServicesPageStateView,
)
    ensures
        ({
            let after = normalized(p, s);
            let items = p.descriptor.shell.navigation_items;
            &&& after.provider_id == s.provider_id
            &&& (exists|i: int| 0 <= i < items.len() && (#[trigger] items[i]).id == s.navigation_id)
                ==> after.navigation_id == s.navigation_id
            &&& !(exists|i: int|
                0 <= i < items.len() && (#[trigger] items[i]).id == s.navigation_id)
                ==> after.navigation_id == p.descriptor.shell.default_navigation_item_id
        }),
        p.apps_state matches LoadStateView::Ready(apps) ==> normalized(p, s).selected_resource_id
            == (if !names_no_app(apps, s.selected_resource_id) {
            s.selected_resource_id
        } else if apps.len() > 0 {
            Some(apps[0].id)
        } else {
            None
        }),
        p.apps_state !is Ready ==> normalized(p, s).selected_resource_id == s.selected_resource_id,
{
    let items = p.descriptor.shell.navigation_items;
    lemma_first_with_id::<ServiceNavigationItem>(items, s.navigation_id);
    if exists|i: int| 0 <= i < items.len() && (#[trigger] items[i]).id == s.navigation_id {
        let i = choose|i: int| 0 <= i < items.len() && (#[trigger] items[i]).id == s.navigation_id;
        assert(ServiceNavigationItem::view_id(items[i]) == s.navigation_id);
    }
    if let LoadStateView::Ready(apps) = p.apps_state {
        lemma_apps_that_come(p, s, LoadStateView::Loading, apps, Seq::empty());
    }
}

/// The target and the workflow that are selected are kept while the section offers them, else the
/// first offered is taken; only these two choices change.
pub proof fn lemma_offered_choices_are_kept(
    p: AppStoreConnectWorkspaceProviderView,
    s: ServicesPageStateView,
)
    requires
        navigation_workflows_of(p, s).len() > 0,
    ensures
        ({
            let after = normalized_workflow(p, s);
            let targets = available_targets_of(p, navigation_workflows_of(p, s));
            let options = available_workflows_of(
                p,
                ServicesPageStateView { selected_target_id: after.selected_target_id, ..s },
            );
            &&& after.provider_id == s.provider_id && after.navigation_id == s.navigation_id
            &&& after.selected_resource_id == s.selected_resource_id
            &&& (exists|i: int|
                0 <= i < targets.len() && s.selected_target_id == Some((#[trigger] targets[i]).id))
                ==> after.selected_target_id == s.selected_target_id
            &&& !(exists|i: int|
                0 <= i < targets.len() && s.selected_target_id == Some((#[trigger] targets[i]).id))
                ==> after.selected_target_id == (if targets.len() > 0 {
                Some(targets[0].id)
            } else {
                None
            })
            &&& (exists|i: int|
                0 <= i < options.len() && s.selected_workflow_id == Some(
                    (#[trigger] options[i]).id,
                )) ==> after.selected_workflow_id == s.selected_workflow_id
            &&& !(exists|i: int|
                0 <= i < options.len() && s.selected_workflow_id == Some(
                    (#[trigger] options[i]).id,
                )) ==> after.selected_workflow_id == (if options.len() > 0 {
                Some(options[0].id)
            } else {
                None
            })
        }),
{
    let after = normalized_workflow(p, s);
    let targets = available_targets_of(p, navigation_workflows_of(p, s));
    let targeted = ServicesPageStateView { selected_target_id: after.selected_target_id, ..s };
    let options = available_workflows_of(p, targeted);
    lemma_option_is_kept_or_first(targets, s.selected_target_id);
    lemma_option_is_kept_or_first(options, s.selected_workflow_id);
}

proof fn lemma_option_is_kept_or_first(
    options: Seq<ServiceWorkflowOptionView>,
    id: Option<Seq<char>>,
)
    ensures
        (exists|i: int| 0 <= i < options.len() && id == Some((#[trigger] options[i]).id))
            ==> kept_or_first::<ServiceWorkflowOption>(options, id) == id,
        !(exists|i: int| 0 <= i < options.len() && id == Some((#[trigger] options[i]).id))
            ==> kept_or_first::<ServiceWorkflowOption>(options, id) == (if options.len() > 0 {
            Some(options[0].id)
        } else {
            None
        }),
{
    lemma_choice_is_kept_or_first::<ServiceWorkflowOption>(options, id);
    if exists|i: int| 0 <= i < options.len() && id == Some((#[trigger] options[i]).id) {
        let i = choose|i: int| 0 <= i < options.len() && id == Some((#[trigger] options[i]).id);
        assert(id == Some(ServiceWorkflowOption::view_id(options[i])));
    } else {
        assert forall|i: int| 0 <= i < options.len() implies id != Some(
            ServiceWorkflowOption::view_id(#[trigger] options[i]),
        ) by {
            assert(id != Some(options[i].id));
        }
    }
    assert(options.len() > 0 ==> ServiceWorkflowOption::view_id(options[0]) == options[0].id);
}

/// The workflow runs against what is selected: a target that it names, or none where it needs none.
pub open spec fn runs_against(
    workflow: ServiceWorkflowDescriptorView,
    target: Option<Seq<char>>,
) -> bool {
    &&& target matches Some(id) ==> exists|i: int|
        0 <= i < workflow.supported_target_ids.len() && workflow.supported_target_ids[i] == id
    &&& target is None ==> workflow.supports_untargeted
}

/// The workflows that a section offers are those of the provider that release, in the provider's
/// order, each under its own name; of these the ones can be chosen that run against the selected
/// target.
pub proof fn lemma_workflows_are_offered_in_order(
    p: AppStoreConnectWorkspaceProviderView,
    s: ServicesPageStateView,
    workflow: ServiceWorkflowDescriptorView,
)
    ensures
        ({
            let none = AppStoreConnectWorkspaceProviderView {
                descriptor: ServiceProviderDescriptorView {
                    workflows: Seq::empty(),
                    ..p.descriptor
                },
                ..p
            };
            navigation_workflows_of(none, s).len() == 0 && available_workflows_of(none, s).len()
                == 0
        }),
        ({
            let more = AppStoreConnectWorkspaceProviderView {
                descriptor: ServiceProviderDescriptorView {
                    workflows: p.descriptor.workflows.push(workflow),
                    ..p.descriptor
                },
                ..p
            };
            let releases = s.navigation_id == "release"@ && workflow.kind
                == ServiceWorkflowKind::Release;
            let option = ServiceWorkflowOptionView {
                id: workflow.id,
                label: workflow.label,
                detail: Some(workflow.detail),
            };
            &&& navigation_workflows_of(more, s) == (if releases {
                navigation_workflows_of(p, s).push(workflow)
            } else {
                navigation_workflows_of(p, s)
            })
            &&& available_workflows_of(more, s) == (if releases && runs_against(
                workflow,
                s.selected_target_id,
            ) {
                available_workflows_of(p, s).push(option)
            } else {
                available_workflows_of(p, s)
            })
        }),
{
    reveal(Seq::filter);
    let all = p.descriptor.workflows;
    assert(all.push(workflow).drop_last() =~= all);
    let offered = navigation_workflows_of(p, s);
    assert(offered.push(workflow).drop_last() =~= offered);
    let option = ServiceWorkflowOptionView {
        id: workflow.id,
        label: workflow.label,
        detail: Some(workflow.detail),
    };
    let pred = |workflow: ServiceWorkflowDescriptorView| workflow_supports(
        workflow,
        s.selected_target_id,
    );
    assert(workflow_supports(workflow, s.selected_target_id) == runs_against(
        workflow,
        s.selected_target_id,
    ));
    let more = AppStoreConnectWorkspaceProviderView {
        descriptor: ServiceProviderDescriptorView {
            workflows: all.push(workflow),
            ..p.descriptor
        },
        ..p
    };
    if s.navigation_id == "release"@ && workflow.kind == ServiceWorkflowKind::Release {
        assert(navigation_workflows_of(more, s) == offered.push(workflow));
        if runs_against(workflow, s.selected_target_id) {
            assert(available_workflows_of(more, s) =~= available_workflows_of(p, s).push(option));
        }
    }
}

/// The targets that can be chosen are those of the provider that one of the workflows lists, in the
/// provider's order, each under its own name.
pub proof fn lemma_targets_are_offered_in_order(
    p: AppStoreConnectWorkspaceProviderView,
    workflows: Seq<ServiceWorkflowDescriptorView>,
    target: ServiceTargetDescriptorView,
)
    ensures
        ({
            let none = AppStoreConnectWorkspaceProviderView {
                descriptor: ServiceProviderDescriptorView { targets: Seq::empty(), ..p.descriptor },
                ..p
            };
            available_targets_of(none, workflows).len() == 0
        }),
        ({
            let more = AppStoreConnectWorkspaceProviderView {
                descriptor: ServiceProviderDescriptorView {
                    targets: p.descriptor.targets.push(target),
                    ..p.descriptor
                },
                ..p
            };
            let listed = exists|i: int|
                0 <= i < workflows.len() && (#[trigger] workflows[i]).target_ids.contains(
                    target.id,
                );
            let option = ServiceWorkflowOptionView {
                id: target.id,
                label: target.label,
                detail: target.detail,
            };
            available_targets_of(more, workflows) == (if listed {
                available_targets_of(p, workflows).push(option)
            } else {
                available_targets_of(p, workflows)
            })
        }),
{
    reveal(Seq::filter);
    let all = p.descriptor.targets;
    assert(all.push(target).drop_last() =~= all);
    let option = ServiceWorkflowOptionView {
        id: target.id,
        label: target.label,
        detail: target.detail,
    };
    let more = AppStoreConnectWorkspaceProviderView {
        descriptor: ServiceProviderDescriptorView { targets: all.push(target), ..p.descriptor },
        ..p
    };
    if exists|i: int|
        0 <= i < workflows.len() && (#[trigger] workflows[i]).target_ids.contains(target.id) {
        assert(available_targets_of(more, workflows) =~= available_targets_of(p, workflows).push(
            option,
        ));
    } else {
        assert(available_targets_of(more, workflows) =~= available_targets_of(p, workflows));
    }
}

/// The controls of the workflows belong to the provider, carry what is selected, and name the
/// workflow that they run. They are there exactly where a workflow that releases is selected and one
/// can be chosen; they are blocked exactly where an app is needed and none is selected.
pub proof fn lemma_workflow_controls_show_the_selection(
    p: AppStoreConnectWorkspaceProviderView,
    s: ServicesPageStateView,
    w: int,
)
    requires
        s.navigation_id == "release"@,
        names_release_at(p.descriptor.workflows, s.selected_workflow_id, w),
        available_workflows_of(p, s).len() > 0,
    ensures
        workflow_ui(p, s) matches Some(ui) && ui.provider_id == p.descriptor.id
            && ui.selected_target_id == s.selected_target_id && ui.selected_workflow_id
            == s.selected_workflow_id && Some(ui.form_workflow_id) == s.selected_workflow_id
            && ui.execute_label == "Run "@ + p.descriptor.workflows[w].label && ui.target_label
            == "Target"@ && ui.workflow_label == "Workflow"@ && ui.targets == available_targets_of(
            p,
            navigation_workflows_of(p, s),
        ) && ui.workflows == available_workflows_of(p, s) && (ui.disabled_reason is Some
            <==> p.descriptor.workflows[w].needs_resource && selected_app_of(p, s) is None)
            && ui.run == shown_run(p, s),
{
    lemma_release_is_selected(p, s, w);
}

/// There are no controls where no workflow is selected, or none can be chosen.
pub proof fn lemma_no_controls_without_workflow(
    p: AppStoreConnectWorkspaceProviderView,
    s: ServicesPageStateView,
)
    ensures
        available_workflows_of(p, s).len() == 0 ==> workflow_ui(p, s) is None,
        s.navigation_id != "release"@ || names_no_release(
            p.descriptor.workflows,
            s.selected_workflow_id,
        ) ==> workflow_ui(p, s) is None,
{
    if s.navigation_id != "release"@ || names_no_release(
        p.descriptor.workflows,
        s.selected_workflow_id,
    ) {
        lemma_no_release_is_selected(p, s);
    }
}

/// An app counts as selected exactly where it is loaded and named by the selection.
pub proof fn lemma_selected_app_is_loaded(
    p: AppStoreConnectWorkspaceProviderView,
    s: ServicesPageStateView,
)
    ensures
        p.apps_state !is Ready ==> selected_app_of(p, s) is None,
        p.apps_state matches LoadStateView::Ready(apps) ==> (selected_app_of(p, s) is None
            <==> names_no_app(apps, s.selected_resource_id)),
        p.apps_state matches LoadStateView::Ready(apps) ==> forall|k: int| #[trigger]
            names_app_at(apps, s.selected_resource_id, k) ==> selected_app_of(p, s) == Some(
                apps[k],
            ),
{
    match p.apps_state {
        LoadStateView::Ready(apps) => {
            lemma_app_is_selected(p, s, apps);
        },
        _ => {
            if let Some(id) = s.selected_resource_id {
                lemma_first_with_id::<AscAppSummary>(Seq::empty(), id);
            }
        },
    }
}

/// The run that is shown says what the latest run says.
pub proof fn lemma_shown_run_is_the_latest(
    p: AppStoreConnectWorkspaceProviderView,
    s: ServicesPageStateView,
)
    ensures
        shown_run(p, s) is Some <==> (p.latest_run matches Some(run) && Some(run.workflow)
            == s.selected_workflow_id && run.target_id == s.selected_target_id),
        shown_run(p, s) matches Some(shown) ==> (p.latest_run matches Some(run) && shown.state
            == run.state && shown.headline == run.headline && shown.detail == run.detail),
{
}

/// A run that ended names its workflow and target and says how it went: what went wrong, or what
/// the output comes down to. Its form is told so, where it has one.
pub proof fn lemma_ended_run_says_how_it_went(
    p: AppStoreConnectWorkspaceProviderView,
    workflow_id: Seq<char>,
    target_id: Option<Seq<char>>,
    label: Seq<char>,
    text: Seq<char>,
)
    ensures
        ({
            let good = ended_run(workflow_id, target_id, label, Ok(text));
            let bad = ended_run(workflow_id, target_id, label, Err(text));
            &&& good.workflow == workflow_id && bad.workflow == workflow_id
            &&& good.target_id == target_id && bad.target_id == target_id
            &&& good.state == ServiceRunState::Succeeded && bad.state == ServiceRunState::Failed
            &&& good.headline == label + " finished"@ && bad.headline == label + " failed"@
            &&& good.detail == workflow_output_summary(text) && bad.detail == text
            &&& good.output is None && bad.output is None
        }),
        (exists|i: int|
            0 <= i < p.descriptor.workflows.len() && (#[trigger] p.descriptor.workflows[i]).id
                == workflow_id) ==> form_after_run(p, workflow_id, Ok(text))
            == (WorkflowFormUpdateView::FinishSuccess { workflow_id }) && form_after_run(
            p,
            workflow_id,
            Err(text),
        ) == (WorkflowFormUpdateView::SetError { workflow_id, error: text }),
        !(exists|i: int|
            0 <= i < p.descriptor.workflows.len() && (#[trigger] p.descriptor.workflows[i]).id
                == workflow_id) ==> form_after_run(p, workflow_id, Ok(text)) is Unchanged
            && form_after_run(p, workflow_id, Err(text)) is Unchanged,
{
    lemma_form_exists(p, workflow_id);
}

proof fn lemma_form_exists(p: AppStoreConnectWorkspaceProviderView, workflow_id: Seq<char>)
    ensures
        has_workflow_form(p, workflow_id) <==> exists|i: int|
            0 <= i < p.descriptor.workflows.len() && (#[trigger] p.descriptor.workflows[i]).id
                == workflow_id,
{
    let all = p.descriptor.workflows;
    lemma_first_with_id::<ServiceWorkflowDescriptor>(all, workflow_id);
    if exists|i: int| 0 <= i < all.len() && (#[trigger] all[i]).id == workflow_id {
        let i = choose|i: int| 0 <= i < all.len() && (#[trigger] all[i]).id == workflow_id;
        assert(ServiceWorkflowDescriptor::view_id(all[i]) == workflow_id);
    }
    if has_workflow_form(p, workflow_id) {
        let found = first_with_id::<ServiceWorkflowDescriptor>(all, workflow_id).unwrap();
        let i = choose|i: int| 0 <= i < all.len() && all[i] == found;
        assert(all[i].id == workflow_id);
    }
}

/// Output comes down to its last line that says anything, without the whitespace around it. Blank
/// lines behind it change nothing, and output that says nothing counts as success.
pub proof fn lemma_output_comes_down_to_last_line(
    before: Seq<char>,
    line: Seq<char>,
    blank: Seq<char>,
)
    requires
        !line.contains('\n'),
        !is_blank(line),
        !blank.contains('\n'),
        is_blank(blank),
    ensures
        workflow_output_summary(line) == trimmed(line),
        workflow_output_summary(before.push('\n') + line) == trimmed(line),
        workflow_output_summary(before.push('\n') + blank) == workflow_output_summary(before),
        workflow_output_summary(blank) == "Workflow completed successfully."@,
{
    lemma_trimmed_empty_iff_blank(line);
    lemma_trimmed_empty_iff_blank(blank);
    lemma_split_whole(line, '\n');
    lemma_split_whole(blank, '\n');
    lemma_split_at(before, '\n', line);
    lemma_split_at(before, '\n', blank);
    let earlier = split_of(before, '\n');
    assert((earlier + seq![line]).last() == line);
    assert((earlier + seq![blank]).last() == blank);
    assert((earlier + seq![blank]).drop_last() =~= earlier);
    assert(seq![blank].drop_last() =~= Seq::empty());
    assert(last_line(seq![blank].drop_last()) is None);
}

/// Of the paths that were picked the last counts. It goes into the field that it was picked for, and
/// into no other; a failure to ask is shown, and picking nothing changes nothing.
pub proof fn lemma_picked_file_is_entered(
    p: AppStoreConnectWorkspaceProviderView,
    key: Seq<char>,
    workflow_id: Seq<char>,
    paths: Seq<Seq<char>>,
    path: Seq<char>,
    message: Seq<char>,
    i: int,
)
    requires
        0 <= i < p.auth_form.fields.len(),
        exists|w: int|
            0 <= w < p.descriptor.workflows.len() && (#[trigger] p.descriptor.workflows[w]).id
                == workflow_id,
    ensures
        ({
            let after = auth_file_picked(p, key, Ok(Some(paths.push(path))));
            let before = p.auth_form.fields[i];
            &&& after.auth_form.fields.len() == p.auth_form.fields.len()
            &&& match before {
                ServiceAuthFieldStateView::Text { descriptor, text, tab_index } => {
                    after.auth_form.fields[i] == (ServiceAuthFieldStateView::Text {
                        descriptor,
                        text: if descriptor.key == key {
                            path
                        } else {
                            text
                        },
                        tab_index,
                    })
                },
                ServiceAuthFieldStateView::Toggle { .. } => after.auth_form.fields[i] == before,
            }
            &&& after.auth_form.error_message == p.auth_form.error_message
            &&& after.auth_form.pending == p.auth_form.pending
            &&& after.auth_form.expanded == p.auth_form.expanded
            &&& after.apps_state == p.apps_state && after.builds_state == p.builds_state
        }),
        auth_file_picked(p, key, Ok(None)) == p,
        auth_file_picked(p, key, Ok(Some(Seq::empty()))) == p,
        auth_file_picked(p, key, Err(message)).auth_form.error_message == Some(message),
        auth_file_picked(p, key, Err(message)).auth_form.fields == p.auth_form.fields,
        workflow_file_picked(p, workflow_id, key, Ok(Some(paths.push(path))))
            == (WorkflowFormUpdateView::SetText { workflow_id, field_key: key, text: path }),
        workflow_file_picked(p, workflow_id, key, Ok(None)) is Unchanged,
        workflow_file_picked(p, workflow_id, key, Ok(Some(Seq::empty()))) is Unchanged,
        workflow_file_picked(p, workflow_id, key, Err(message))
            == (WorkflowFormUpdateView::SetError { workflow_id, error: message }),
{
    lemma_form_exists(p, workflow_id);
    assert(paths.push(path).last() == path);
}

/// Signing in sends what was entered to App Store Connect and leaves it in the form; signing out
/// sends nothing but that. Neither touches what is loaded.
pub proof fn lemma_sign_in_and_out(p: AppStoreConnectWorkspaceProviderView)
    ensures
        authenticate_submission(p) matches Some(request) ==> (request.provider_id
            == "app-store-connect"@ && p.auth_form.authenticate_descriptor is Some
            && request.action == p.auth_form.authenticate_descriptor.unwrap().action),
        ({
            let after = authenticate_submitted(p);
            &&& after.auth_form.fields == p.auth_form.fields
            &&& after.auth_form.expanded == p.auth_form.expanded
            &&& after.auth_form.authenticate_descriptor == p.auth_form.authenticate_descriptor
            &&& after.auth_form.logout_available == p.auth_form.logout_available
            &&& authenticate_submission(p) is Some ==> after.auth_form.error_message
                == p.auth_form.error_message
            &&& authenticate_submission(p) is None ==> after.auth_form.pending
                == p.auth_form.pending
            &&& after.apps_state == p.apps_state && after.builds_state == p.builds_state
            &&& after.auth_state == p.auth_state && after.latest_run == p.latest_run
            &&& after.descriptor == p.descriptor
        }),
        ({
            let after = logout_submitted(p);
            &&& p.auth_form.logout_available ==> after.auth_form.pending
                && after.auth_form.error_message is None
            &&& !p.auth_form.logout_available ==> after == p
            &&& after.auth_form.fields == p.auth_form.fields
            &&& after.auth_form.expanded == p.auth_form.expanded
            &&& after.apps_state == p.apps_state && after.builds_state == p.builds_state
            &&& after.auth_state == p.auth_state && after.latest_run == p.latest_run
            &&& after.descriptor == p.descriptor
        }),
        auth_effect(p, ServiceAuthUiActionView::Logout) == (if p.auth_form.logout_available {
            AuthUiEffectView::Run {
                request: ServiceAuthActionRequestView {
                    provider_id: "app-store-connect"@,
                    action: ServiceAuthAction::Logout,
                    input: Map::empty(),
                },
            }
        } else {
            AuthUiEffectView::Nothing
        }),
        auth_effect(p, ServiceAuthUiActionView::SubmitAuthenticate) == (
        match authenticate_submission(p) {
            Some(request) => AuthUiEffectView::Run { request },
            None => AuthUiEffectView::Redraw,
        }),
{
}

/// What the user does with the controls of the sign-in opens, closes or fills in the form, and
/// touches nothing that is loaded.
pub proof fn lemma_sign_in_controls(
    p: AppStoreConnectWorkspaceProviderView,
    key: Seq<char>,
    value: ToggleState,
    i: int,
)
    requires
        0 <= i < p.auth_form.fields.len(),
    ensures
        ({
            let opened = after_auth_action(p, ServiceAuthUiActionView::ShowAuthenticate);
            let closed = after_auth_action(p, ServiceAuthUiActionView::CancelAuthenticate);
            let set = after_auth_action(
                p,
                ServiceAuthUiActionView::SetToggle { field_key: key, value },
            );
            &&& opened.auth_form.expanded && opened.auth_form.error_message is None
            &&& opened.auth_form.fields == p.auth_form.fields
            &&& opened.auth_form.pending == p.auth_form.pending
            &&& !closed.auth_form.expanded && !closed.auth_form.pending
            &&& closed.auth_form.error_message is None
            &&& closed.auth_form.fields == p.auth_form.fields
            &&& set.auth_form.expanded == p.auth_form.expanded
            &&& set.auth_form.fields.len() == p.auth_form.fields.len()
            &&& match p.auth_form.fields[i] {
                ServiceAuthFieldStateView::Toggle { descriptor, value: before } => {
                    set.auth_form.fields[i] == (ServiceAuthFieldStateView::Toggle {
                        descriptor,
                        value: if descriptor.key == key {
                            value
                        } else {
                            before
                        },
                    })
                },
                ServiceAuthFieldStateView::Text { .. } => set.auth_form.fields[i]
                    == p.auth_form.fields[i],
            }
            &&& opened.apps_state == p.apps_state && opened.builds_state == p.builds_state
            &&& closed.apps_state == p.apps_state && closed.builds_state == p.builds_state
            &&& set.apps_state == p.apps_state && set.builds_state == p.builds_state
            &&& opened.auth_state == p.auth_state && opened.latest_run == p.latest_run
            &&& closed.auth_state == p.auth_state && closed.latest_run == p.latest_run
            &&& set.auth_state == p.auth_state && set.latest_run == p.latest_run
        }),
        after_auth_action(p, ServiceAuthUiActionView::PickFile { field_key: key }) == p,
        auth_effect(p, ServiceAuthUiActionView::PickFile { field_key: key })
            == (AuthUiEffectView::PromptForFile { field_key: key }),
        auth_effect(p, ServiceAuthUiActionView::ShowAuthenticate) is Redraw,
        auth_effect(p, ServiceAuthUiActionView::CancelAuthenticate) is Redraw,
        auth_effect(p, ServiceAuthUiActionView::SetToggle { field_key: key, value }) is Redraw,
{
}

/// What the user does with the controls of the workflows: a choice changes the choice and takes
/// away the run that was shown, and the form of the selected workflow takes the rest.
pub proof fn lemma_workflow_controls(
    p: AppStoreConnectWorkspaceProviderView,
    s: ServicesPageStateView,
    id: Seq<char>,
    key: Seq<char>,
    value: ToggleState,
)
    ensures
        ({
            let action = ServiceWorkflowUiActionView::SelectWorkflow { workflow_id: id };
            let state = state_after_workflow_action(p, s, action);
            let after = after_workflow_action(p, s, action);
            &&& state == (ServicesPageStateView { selected_workflow_id: Some(id), ..s })
            &&& workflow_effect(p, s, action) is Redraw
            &&& s.selected_workflow_id == Some(id) ==> after == p
            &&& s.selected_workflow_id != Some(id) ==> after == (
            AppStoreConnectWorkspaceProviderView { latest_run: None, ..p })
        }),
        ({
            let action = ServiceWorkflowUiActionView::SelectTarget { target_id: id };
            let state = state_after_workflow_action(p, s, action);
            let after = after_workflow_action(p, s, action);
            &&& state.navigation_id == s.navigation_id && state.provider_id == s.provider_id
            &&& state.selected_resource_id == s.selected_resource_id
            &&& workflow_effect(p, s, action) is Redraw
            &&& s.selected_target_id == Some(id) ==> after == p && state == s
            &&& s.selected_target_id != Some(id) ==> after == (
            AppStoreConnectWorkspaceProviderView { latest_run: None, ..p })
        }),
        ({
            let has_form = exists|i: int|
                0 <= i < p.descriptor.workflows.len() && Some(
                    (#[trigger] p.descriptor.workflows[i]).id,
                ) == s.selected_workflow_id;
            let pick = ServiceWorkflowUiActionView::PickFile { field_key: key };
            let set = ServiceWorkflowUiActionView::SetToggle { field_key: key, value };
            let submit = ServiceWorkflowUiActionView::Submit;
            &&& after_workflow_action(p, s, pick) == p && after_workflow_action(p, s, set) == p
            &&& after_workflow_action(p, s, submit) == p
            &&& state_after_workflow_action(p, s, pick) == s
            &&& state_after_workflow_action(p, s, set) == s
            &&& state_after_workflow_action(p, s, submit) == s
            &&& has_form ==> workflow_effect(p, s, pick) == (WorkflowUiEffectView::PromptForFile {
                workflow_id: s.selected_workflow_id.unwrap(),
                field_key: key,
            }) && workflow_effect(p, s, set) == (WorkflowUiEffectView::UpdateForm {
                update: WorkflowFormUpdateView::SetToggle {
                    workflow_id: s.selected_workflow_id.unwrap(),
                    field_key: key,
                    value,
                },
            })
            &&& !has_form ==> workflow_effect(p, s, pick) is Nothing && workflow_effect(
                p,
                s,
                set,
            ) is Redraw
            &&& workflow_effect(p, s, submit) is BuildInput <==> submission(
                p,
                s,
                Ok(Map::empty()),
            ) is Started
            &&& workflow_effect(p, s, submit) !is BuildInput ==> workflow_effect(
                p,
                s,
                submit,
            ) is Nothing
            &&& workflow_effect(p, s, submit) matches WorkflowUiEffectView::BuildInput {
                workflow_id,
            } ==> Some(workflow_id) == s.selected_workflow_id
        }),
{
    if let Some(workflow_id) = s.selected_workflow_id {
        lemma_form_exists(p, workflow_id);
        let all = p.descriptor.workflows;
        if exists|i: int| 0 <= i < all.len() && (#[trigger] all[i]).id == workflow_id {
            let i = choose|i: int| 0 <= i < all.len() && (#[trigger] all[i]).id == workflow_id;
            assert(Some(all[i].id) == s.selected_workflow_id);
        }
        lemma_first_with_id::<ServiceWorkflowDescriptor>(
            navigation_workflows_of(p, s),
            workflow_id,
        );
    }
}

/// The sign-in shows as it was found: being checked, failed with the reason, or as reported.
pub proof fn lemma_sign_in_shows_as_found(p: AppStoreConnectWorkspaceProviderView)
    ensures
        p.auth_state is Loading ==> !auth_status(p).authenticated && auth_status(p).severity
            == Severity::Success && auth_status(p).warnings.len() == 0,
        p.auth_state matches LoadStateView::Error(message) ==> auth_status(p).detail == message
            && auth_status(p).headline == "Authentication check failed"@ && auth_status(p).severity
            == Severity::Warning && !auth_status(p).authenticated && auth_status(
            p,
        ).warnings.len() == 0,
        p.auth_state matches LoadStateView::Ready(found) ==> auth_status(p).headline
            == found.headline && auth_status(p).detail == found.detail && auth_status(p).warnings
            == found.warnings && auth_status(p).authenticated == found.authenticated
            && auth_status(p).severity == (if found.healthy {
            Severity::Success
        } else {
            Severity::Warning
        }),
        auth_ui(p).provider_id == p.descriptor.id,
        auth_ui(p).form == p.auth_form,
        auth_ui(p).status == auth_status(p),
        auth_ui(p).authenticate_label == "Authenticate"@,
        auth_ui(p).reauthenticate_label == "Re-authenticate"@,
        auth_ui(p).logout_label == "Log Out"@,
{
}

/// The menu of apps lists every loaded app under its name, with its bundle identifier, in their
/// order; it names the selected one, and is greyed out exactly where there is none to choose.
pub proof fn lemma_menu_lists_the_apps(
    p: AppStoreConnectWorkspaceProviderView,
    s: ServicesPageStateView,
    apps: Seq<AscAppSummaryView>,
    k: int,
)
    requires
        p.descriptor.shell.resource_kind is Some,
        p.apps_state == LoadStateView::Ready(apps),
        0 <= k < apps.len(),
    ensures
        resource_menu_of(p, s) matches Some(menu) && menu.singular_label
            == p.descriptor.shell.resource_kind.unwrap().singular_label && menu.entries.len()
            == apps.len() && menu.entries[k].id == apps[k].id && menu.entries[k].label
            == apps[k].name && menu.entries[k].detail == Some(apps[k].bundle_id) && !menu.disabled,
        names_app_at(apps, s.selected_resource_id, k) ==> resource_menu_of(
            p,
            s,
        ).unwrap().current_label == apps[k].name,
        names_no_app(apps, s.selected_resource_id) ==> resource_menu_of(p, s).unwrap().current_label
            == "Select "@ + p.descriptor.shell.resource_kind.unwrap().singular_label,
{
    lemma_app_is_selected(p, s, apps);
}

/// Without apps the menu says why, and nothing can be chosen from it.
pub proof fn lemma_menu_without_apps(
    p: AppStoreConnectWorkspaceProviderView,
    s: ServicesPageStateView,
)
    ensures
        p.descriptor.shell.resource_kind is None <==> resource_menu_of(p, s) is None,
        p.descriptor.shell.resource_kind matches Some(kind) ==> {
            let menu = resource_menu_of(p, s).unwrap();
            &&& p.apps_state is Loading ==> menu.current_label == "Loading "@ + kind.plural_label
                + "…"@
            &&& p.apps_state is Error ==> menu.current_label == "Select "@ + kind.singular_label
            &&& p.apps_state matches LoadStateView::Ready(apps) ==> apps.len() == 0
                ==> menu.current_label == "No "@ + kind.plural_label && menu.disabled
                && menu.entries.len() == 0
            &&& p.apps_state !is Ready ==> menu.disabled && menu.entries.len() == 0
        },
{
}

/// A next page that comes is shown behind the list, which goes on where the page says; one that
/// fails says why, and the list goes on where it did. Nothing else changes.
pub proof fn lemma_next_page_shows(
    p: AppStoreConnectWorkspaceProviderView,
    s: ServicesPageStateView,
    list: AscBuildListStateView,
    app_id: Seq<char>,
    url: Seq<char>,
    page: AscBuildPageView,
    message: Seq<char>,
)
    requires
        p.builds_state == LoadStateView::Ready(list),
        s.selected_resource_id == Some(app_id),
        list.next_page_url == Some(url),
    ensures
        ({
            let came = more_builds_finished(p, s, app_id, url, LoadStateView::Ready(page));
            &&& came.builds_state matches LoadStateView::Ready(after) && after.builds == list.builds
                + page.builds && after.next_page_url == page.next_page_url
                && !after.is_loading_more && after.load_more_error is None
            &&& came.latest_run == p.latest_run && came.descriptor == p.descriptor
        }),
        ({
            let failed = more_builds_finished(p, s, app_id, url, LoadStateView::Error(message));
            &&& failed.builds_state matches LoadStateView::Ready(after) && after.builds
                == list.builds && after.next_page_url == Some(url) && !after.is_loading_more
                && after.load_more_error == Some(message)
            &&& failed.latest_run == p.latest_run && failed.descriptor == p.descriptor
        }),
{
}

/// A reply about a page that the list does not wait for, or while there is no list, or for an app
/// that is not selected, changes nothing.
pub proof fn lemma_other_pages_are_dropped(
    p: AppStoreConnectWorkspaceProviderView,
    s: ServicesPageStateView,
    app_id: Seq<char>,
    url: Seq<char>,
    page: LoadStateView<AscBuildPageView>,
)
    requires
        ({
            ||| s.selected_resource_id != Some(app_id)
            ||| p.builds_state !is Ready
            ||| p.builds_state matches LoadStateView::Ready(list) && list.next_page_url != Some(url)
        }),
    ensures
        more_builds_finished(p, s, app_id, url, page) == p,
        s.selected_resource_id != Some(app_id) ==> builds_finished(p, s, app_id, page) == p,
{
}

/// A sign-in that failed shows why and can be tried again; nothing that is loaded is touched.
pub proof fn lemma_failed_sign_in_touches_nothing(
    p: AppStoreConnectWorkspaceProviderView,
    message: Seq<char>,
)
    ensures
        ({
            let after = auth_finished(p, Err(message));
            &&& after.auth_form.error_message == Some(message) && !after.auth_form.pending
            &&& after.auth_form.fields == p.auth_form.fields
            &&& after.auth_form.expanded == p.auth_form.expanded
            &&& after.auth_form.authenticate_descriptor == p.auth_form.authenticate_descriptor
            &&& after.auth_form.logout_available == p.auth_form.logout_available
            &&& after.apps_state == p.apps_state && after.builds_state == p.builds_state
            &&& after.auth_state == p.auth_state && after.latest_run == p.latest_run
            &&& after.descriptor == p.descriptor
        }),
        ({
            let after = auth_finished(p, Ok(()));
            &&& !after.auth_form.expanded && !after.auth_form.pending
            &&& after.auth_form.error_message is None
            &&& after.auth_form.fields == p.auth_form.fields
            &&& after.builds_state matches LoadStateView::Ready(list) && list.builds.len() == 0
        }),
{
}

} // verus!
