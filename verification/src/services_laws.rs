//! What becomes of the page of services when the user works it, provider by provider.

use crate::asc_apps::AscAppSummaryView;
use crate::asc_provider::{after_auth_action, after_workflow_action, normalized};
use crate::asc_provider::{state_after_workflow_action, AppStoreConnectWorkspaceProvider};
use crate::asc_provider::AppStoreConnectWorkspaceProviderView;
use crate::hub::{workflow_supports, ServiceProviderDescriptor, ServiceProviderDescriptorView};
use crate::hub::ServiceWorkflowDescriptorView;
use crate::load_state::LoadStateView;
use crate::lookup::{lemma_first_is_found, lemma_first_with_id, place_of, HasId};
use crate::provider_laws::{asks_about_app, lemma_builds_are_asked_of_their_app};
use crate::provider_laws::{lemma_unknown_app_fetches_nothing, lemma_valid_choices_are_kept};
use crate::provider_laws::{names_app_at, names_no_app};
use crate::service_auth::ServiceAuthUiActionView;
use crate::service_workflow::ServiceWorkflowUiActionView;
use crate::services_page::{auth_dispatched, navigation_selected, page_refreshed, pane_of};
use crate::services_page::{provider_selected, resource_fetch, resource_selected};
use crate::services_page::{workflow_dispatched, ServicesPageView};
use crate::services_provider::ServicesPageStateView;
use vstd::prelude::*;

verus! {

/// The pages at `k` are the first ones of the provider.
pub open spec fn pages_at(
    panes: Seq<AppStoreConnectWorkspaceProviderView>,
    provider_id: Seq<char>,
    k: int,
) -> bool {
    &&& 0 <= k < panes.len()
    &&& panes[k].descriptor.id == provider_id
    &&& forall|j: int| 0 <= j < k ==> (#[trigger] panes[j]).descriptor.id != provider_id
}

/// The provider at `q` is the first that goes by `provider_id`.
pub open spec fn provider_at(
    providers: Seq<ServiceProviderDescriptorView>,
    provider_id: Seq<char>,
    q: int,
) -> bool {
    &&& 0 <= q < providers.len()
    &&& providers[q].id == provider_id
    &&& forall|j: int| 0 <= j < q ==> (#[trigger] providers[j]).id != provider_id
}

/// Only the pages at `k` are other than they were.
pub open spec fn others_stay(
    before: Seq<AppStoreConnectWorkspaceProviderView>,
    after: Seq<AppStoreConnectWorkspaceProviderView>,
    k: int,
) -> bool {
    &&& after.len() == before.len()
    &&& forall|j: int| 0 <= j < before.len() && j != k ==> #[trigger] after[j] == before[j]
}

/// The pages are fetched anew: nothing of what was fetched before is left, and the form stays.
pub open spec fn fetched_anew(
    before: AppStoreConnectWorkspaceProviderView,
    after: AppStoreConnectWorkspaceProviderView,
) -> bool {
    &&& after.descriptor == before.descriptor
    &&& after.auth_form == before.auth_form
    &&& after.auth_state is Loading
    &&& after.apps_state is Loading
    &&& after.latest_run is None
    &&& (after.builds_state matches LoadStateView::Ready(list) && list.builds.len() == 0)
}

proof fn lemma_pages_are_found(page: ServicesPageView, provider_id: Seq<char>, k: int)
    requires
        pages_at(page.panes, provider_id, k),
    ensures
        pane_of(page, provider_id) == Some(page.panes[k]),
        place_of::<AppStoreConnectWorkspaceProvider>(page.panes, provider_id) == k,
{
    let panes = page.panes;
    assert forall|i: int| 0 <= i < panes.len() implies AppStoreConnectWorkspaceProvider::view_id(
        #[trigger] panes[i],
    ) == panes[i].descriptor.id by {}
    lemma_first_is_found::<AppStoreConnectWorkspaceProvider>(panes, provider_id, k);
}

/// Fetching anew is a matter of the selected provider alone, and leaves every choice.
pub proof fn lemma_selected_provider_is_fetched_anew(page: ServicesPageView, k: int)
    requires
        pages_at(page.panes, page.state.provider_id, k),
    ensures
        ({
            let after = page_refreshed(page);
            &&& after.state == page.state && after.providers == page.providers
            &&& others_stay(page.panes, after.panes, k)
            &&& fetched_anew(page.panes[k], after.panes[k])
        }),
{
    lemma_pages_are_found(page, page.state.provider_id, k);
}

/// Another provider that is chosen is selected and fetched anew, at its first section, with nothing
/// kept of what was chosen of the former; the one that is selected already stays as it is.
pub proof fn lemma_provider_is_chosen(
    page: ServicesPageView,
    provider_id: Seq<char>,
    q: int,
    k: int,
)
    requires
        provider_at(page.providers, provider_id, q),
        pages_at(page.panes, provider_id, k),
    ensures
        page.state.provider_id == provider_id ==> provider_selected(page, provider_id) == page,
        page.state.provider_id != provider_id ==> ({
            let after = provider_selected(page, provider_id);
            let shell = page.providers[q].shell;
            let items = page.panes[k].descriptor.shell.navigation_items;
            &&& after.providers == page.providers
            &&& after.state.provider_id == provider_id
            &&& (exists|i: int|
                0 <= i < items.len() && (#[trigger] items[i]).id
                    == shell.default_navigation_item_id) ==> after.state.navigation_id
                == shell.default_navigation_item_id
            &&& (page.panes[k].apps_state matches LoadStateView::Ready(apps)
                ==> after.state.selected_resource_id == (if apps.len() > 0 {
                Some(apps[0].id)
            } else {
                None
            }))
            &&& !(page.panes[k].apps_state is Ready) ==> after.state.selected_resource_id is None
            &&& after.state == normalized(
                page.panes[k],
                ServicesPageStateView {
                    provider_id,
                    navigation_id: shell.default_navigation_item_id,
                    selected_resource_id: None,
                    selected_target_id: None,
                    selected_workflow_id: None,
                },
            )
            &&& others_stay(page.panes, after.panes, k)
            &&& fetched_anew(page.panes[k], after.panes[k])
        }),
{
    let providers = page.providers;
    assert forall|i: int| 0 <= i < providers.len() implies ServiceProviderDescriptor::view_id(
        #[trigger] providers[i],
    ) == providers[i].id by {}
    lemma_first_is_found::<ServiceProviderDescriptor>(providers, provider_id, q);
    if page.state.provider_id != provider_id {
        let state = ServicesPageStateView {
            provider_id,
            navigation_id: providers[q].shell.default_navigation_item_id,
            selected_resource_id: None,
            selected_target_id: None,
            selected_workflow_id: None,
        };
        let chosen = ServicesPageView { state, ..page };
        lemma_pages_are_found(chosen, provider_id, k);
        let settled = ServicesPageView { state: normalized(page.panes[k], state), ..page };
        lemma_valid_choices_are_kept(page.panes[k], state);
        lemma_pages_are_found(settled, provider_id, k);
    }
}

/// A section of the provider that is chosen is selected. Nothing is fetched for it, and neither the
/// provider nor its pages change.
pub proof fn lemma_section_is_chosen(page: ServicesPageView, navigation_id: Seq<char>, k: int)
    requires
        pages_at(page.panes, page.state.provider_id, k),
    ensures
        ({
            let after = navigation_selected(page, navigation_id);
            let items = page.panes[k].descriptor.shell.navigation_items;
            &&& after.providers == page.providers && after.panes == page.panes
            &&& after.state.provider_id == page.state.provider_id
            &&& (exists|i: int| 0 <= i < items.len() && (#[trigger] items[i]).id == navigation_id)
                ==> after.state.navigation_id == navigation_id
            &&& page.state.navigation_id == navigation_id ==> after == page
            &&& page.state.navigation_id != navigation_id ==> after.state == normalized(
                page.panes[k],
                ServicesPageStateView { navigation_id, ..page.state },
            )
        }),
{
    let state = ServicesPageStateView { navigation_id, ..page.state };
    let chosen = ServicesPageView { state, ..page };
    lemma_pages_are_found(chosen, page.state.provider_id, k);
    lemma_valid_choices_are_kept(page.panes[k], state);
}

/// An app that is chosen is selected, and its builds are asked for of it; nothing else of the choice
/// changes, nor do the pages of another provider.
pub proof fn lemma_resource_is_chosen(
    page: ServicesPageView,
    apps: Seq<AscAppSummaryView>,
    k: int,
    a: int,
)
    requires
        pages_at(page.panes, page.state.provider_id, k),
        page.panes[k].apps_state == LoadStateView::Ready(apps),
        names_app_at(apps, Some(apps[a].id), a),
        page.state.selected_resource_id != Some(apps[a].id),
    ensures
        ({
            let after = resource_selected(page, apps[a].id);
            &&& (resource_fetch(page, apps[a].id) matches Some(fetch) && fetch.app_id == apps[a].id
                && asks_about_app(fetch.request.resource, apps[a]))
            &&& after.providers == page.providers
            &&& after.state == (ServicesPageStateView {
                selected_resource_id: Some(apps[a].id),
                ..page.state
            })
            &&& others_stay(page.panes, after.panes, k)
            &&& after.panes[k] == (AppStoreConnectWorkspaceProviderView {
                builds_state: LoadStateView::Loading,
                latest_run: None,
                ..page.panes[k]
            })
        }),
{
    lemma_pages_are_found(page, page.state.provider_id, k);
    lemma_builds_are_asked_of_their_app(page.panes[k], page.state, apps, apps[a].id, a);
}

/// An app that is selected already is not fetched again, and one that is not loaded is not fetched.
pub proof fn lemma_resource_stays(page: ServicesPageView, resource_id: Seq<char>, k: int)
    requires
        pages_at(page.panes, page.state.provider_id, k),
    ensures
        page.state.selected_resource_id == Some(resource_id) ==> resource_selected(
            page,
            resource_id,
        ) == page && resource_fetch(page, resource_id) is None,
        page.state.selected_resource_id != Some(resource_id) && (
        page.panes[k].apps_state matches LoadStateView::Ready(apps) ==> names_no_app(
            apps,
            Some(resource_id),
        )) ==> resource_selected(page, resource_id).state == page.state && resource_fetch(
            page,
            resource_id,
        ) is None,
{
    lemma_pages_are_found(page, page.state.provider_id, k);
    if page.panes[k].apps_state is Ready ==> names_no_app(
        page.panes[k].apps_state->Ready_0,
        Some(resource_id),
    ) {
        lemma_unknown_app_fetches_nothing(page.panes[k], page.state, resource_id);
    }
}

/// The controls of a provider work on its own pages and on no other's; those of the sign-in leave
/// every choice. What is meant for a provider that is not there does nothing.
pub proof fn lemma_controls_work_on_their_provider(
    page: ServicesPageView,
    provider_id: Seq<char>,
    auth: ServiceAuthUiActionView,
    workflow: ServiceWorkflowUiActionView,
    k: int,
)
    ensures
        pages_at(page.panes, provider_id, k) ==> ({
            let after = auth_dispatched(page, provider_id, auth);
            &&& after.state == page.state && after.providers == page.providers
            &&& others_stay(page.panes, after.panes, k)
            &&& after.panes[k] == after_auth_action(page.panes[k], auth)
        }),
        pages_at(page.panes, provider_id, k) ==> ({
            let after = workflow_dispatched(page, provider_id, workflow);
            &&& after.providers == page.providers
            &&& after.state == state_after_workflow_action(page.panes[k], page.state, workflow)
            &&& others_stay(page.panes, after.panes, k)
            &&& after.panes[k] == after_workflow_action(page.panes[k], page.state, workflow)
        }),
        (forall|j: int|
            0 <= j < page.panes.len() ==> (#[trigger] page.panes[j]).descriptor.id != provider_id)
            ==> auth_dispatched(page, provider_id, auth) == page && workflow_dispatched(
            page,
            provider_id,
            workflow,
        ) == page,
{
    if pages_at(page.panes, provider_id, k) {
        lemma_pages_are_found(page, provider_id, k);
    }
    let panes = page.panes;
    lemma_first_with_id::<AppStoreConnectWorkspaceProvider>(panes, provider_id);
    if let Some(pane) = pane_of(page, provider_id) {
        let i = choose|i: int| 0 <= i < panes.len() && panes[i] == pane;
        assert(AppStoreConnectWorkspaceProvider::view_id(pane) == panes[i].descriptor.id);
    }
}

/// A workflow runs against the targets that it lists, and against none where it says so.
pub proof fn lemma_workflow_runs_against_its_targets(
    workflow: ServiceWorkflowDescriptorView,
    target_id: Seq<char>,
)
    ensures
        workflow_supports(workflow, Some(target_id)) <==> exists|i: int|
            0 <= i < workflow.supported_target_ids.len()
                && #[trigger] workflow.supported_target_ids[i] == target_id,
        workflow_supports(workflow, None) <==> workflow.supports_untargeted,
{
}

} // verus!
