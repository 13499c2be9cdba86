//! The services page: the providers, the one that is selected, and what follows from what the user
//! does.

use crate::asc_provider::{after_auth_action, after_workflow_action, auth_effect, builds_fetch};
use crate::asc_provider::{builds_requested, builds_requested_state, normalized, refreshed};
use crate::asc_provider::{state_after_workflow_action, workflow_effect};
use crate::asc_provider::{AppStoreConnectWorkspaceProvider, AppStoreConnectWorkspaceProviderView};
use crate::asc_provider::{AuthUiEffect, BuildsFetch, BuildsFetchView};
use crate::asc_provider::WorkflowUiEffect;
use crate::hub::{ServiceProviderDescriptor, ServiceProviderDescriptorView};
use crate::lookup::{find_by_id, first_with_id, has_id, lemma_first_with_id};
use crate::lookup::{place_of, position_by_id, HasId};
use crate::service_auth::{ServiceAuthUiAction, ServiceAuthUiActionView};
use crate::service_workflow::{ServiceWorkflowUiAction, ServiceWorkflowUiActionView};
use crate::services_provider::{ServicesPageState, ServicesPageStateView};
use crate::text::str_eq;
use vstd::prelude::*;
use vstd::string::*;

verus! {

impl HasId for AppStoreConnectWorkspaceProvider {
    open spec fn view_id(v: AppStoreConnectWorkspaceProviderView) -> Seq<char> {
        v.descriptor.id
    }

    fn id_str(&self) -> (r: &str) {
        self.descriptor.id.as_str()
    }
}

/// The services page.
#[derive(Debug)]
pub struct ServicesPage {
    /// The providers to choose from.
    pub providers: Vec<ServiceProviderDescriptor>,
    /// The pages of the providers.
    pub panes: Vec<AppStoreConnectWorkspaceProvider>,
    pub state: ServicesPageState,
}

/// The value of a [`ServicesPage`].
#[verifier::ext_equal]
pub struct ServicesPageView {
    pub providers: Seq<ServiceProviderDescriptorView>,
    pub panes: Seq<AppStoreConnectWorkspaceProviderView>,
    pub state: ServicesPageStateView,
}

impl DeepView for ServicesPage {
    type V = ServicesPageView;

    open spec fn deep_view(&self) -> ServicesPageView {
        ServicesPageView {
            providers: self.providers.deep_view(),
            panes: self.panes.deep_view(),
            state: self.state.deep_view(),
        }
    }
}

/// The pages of a provider.
pub open spec fn pane_of(page: ServicesPageView, provider_id: Seq<char>) -> Option<
    AppStoreConnectWorkspaceProviderView,
> {
    first_with_id::<AppStoreConnectWorkspaceProvider>(page.panes, provider_id)
}

/// The pages of the selected provider.
pub open spec fn active_pane_of(page: ServicesPageView) -> Option<
    AppStoreConnectWorkspaceProviderView,
> {
    pane_of(page, page.state.provider_id)
}

/// The selected provider is one of those to choose from, and each of those has its pages.
pub open spec fn page_wf(page: ServicesPageView) -> bool {
    &&& has_id::<ServiceProviderDescriptor>(page.providers, page.state.provider_id)
    &&& forall|id: Seq<char>| #[trigger]
        has_id::<ServiceProviderDescriptor>(page.providers, id) ==> pane_of(page, id) is Some
}

/// The page with other pages for a provider, and another selection.
pub open spec fn with_pane(
    page: ServicesPageView,
    provider_id: Seq<char>,
    pane: AppStoreConnectWorkspaceProviderView,
    state: ServicesPageStateView,
) -> ServicesPageView {
    ServicesPageView {
        providers: page.providers,
        panes: page.panes.update(
            place_of::<AppStoreConnectWorkspaceProvider>(page.panes, provider_id),
            pane,
        ),
        state,
    }
}

/// The page with its selection put right.
pub open spec fn page_normalized(page: ServicesPageView) -> ServicesPageView {
    match active_pane_of(page) {
        Some(pane) => ServicesPageView { state: normalized(pane, page.state), ..page },
        None => page,
    }
}

/// The page while the selected provider is fetched anew.
pub open spec fn page_refreshed(page: ServicesPageView) -> ServicesPageView {
    match active_pane_of(page) {
        Some(pane) => with_pane(page, page.state.provider_id, refreshed(pane), page.state),
        None => page,
    }
}

/// The selection when another provider is chosen.
pub open spec fn provider_chosen(page: ServicesPageView, provider_id: Seq<char>) -> ServicesPageView {
    ServicesPageView {
        state: ServicesPageStateView {
            provider_id,
            navigation_id: match first_with_id::<ServiceProviderDescriptor>(
                page.providers,
                provider_id,
            ) {
                Some(provider) => provider.shell.default_navigation_item_id,
                None => page.state.navigation_id,
            },
            selected_resource_id: None,
            selected_target_id: None,
            selected_workflow_id: None,
        },
        ..page
    }
}

/// The page after another provider was chosen: its first section, with nothing selected but what
/// it offers, and everything fetched anew.
pub open spec fn provider_selected(
    page: ServicesPageView,
    provider_id: Seq<char>,
) -> ServicesPageView {
    if page.state.provider_id == provider_id {
        page
    } else {
        page_refreshed(page_normalized(provider_chosen(page, provider_id)))
    }
}

/// The page after a section was chosen.
pub open spec fn navigation_selected(
    page: ServicesPageView,
    navigation_id: Seq<char>,
) -> ServicesPageView {
    if page.state.navigation_id == navigation_id {
        page
    } else {
        page_normalized(
            ServicesPageView {
                state: ServicesPageStateView { navigation_id, ..page.state },
                ..page
            },
        )
    }
}

/// The page after a resource was chosen.
pub open spec fn resource_selected(
    page: ServicesPageView,
    resource_id: Seq<char>,
) -> ServicesPageView {
    match active_pane_of(page) {
        Some(pane) => if page.state.selected_resource_id == Some(resource_id) {
            page
        } else {
            with_pane(
                page,
                page.state.provider_id,
                builds_requested(pane, resource_id),
                builds_requested_state(pane, page.state, resource_id),
            )
        },
        None => page,
    }
}

/// What is fetched when a resource was chosen.
pub open spec fn resource_fetch(page: ServicesPageView, resource_id: Seq<char>) -> Option<
    BuildsFetchView,
> {
    match active_pane_of(page) {
        Some(pane) => if page.state.selected_resource_id == Some(resource_id) {
            None
        } else {
            builds_fetch(pane, resource_id)
        },
        None => None,
    }
}

/// The page after the user has worked the controls of a provider's sign-in.
pub open spec fn auth_dispatched(
    page: ServicesPageView,
    provider_id: Seq<char>,
    action: ServiceAuthUiActionView,
) -> ServicesPageView {
    match pane_of(page, provider_id) {
        Some(pane) => with_pane(page, provider_id, after_auth_action(pane, action), page.state),
        None => page,
    }
}

/// The page after the user has worked the controls of a provider's workflows.
pub open spec fn workflow_dispatched(
    page: ServicesPageView,
    provider_id: Seq<char>,
    action: ServiceWorkflowUiActionView,
) -> ServicesPageView {
    match pane_of(page, provider_id) {
        Some(pane) => with_pane(
            page,
            provider_id,
            after_workflow_action(pane, page.state, action),
            state_after_workflow_action(pane, page.state, action),
        ),
        None => page,
    }
}

proof fn lemma_place<T: HasId>(items: Seq<T::V>, id: Seq<char>)
    ensures
        0 <= place_of::<T>(items, id) <= items.len(),
        has_id::<T>(items, id) ==> place_of::<T>(items, id) < items.len() && first_with_id::<T>(
            items,
            id,
        ) == Some(items[place_of::<T>(items, id)]),
    decreases items.len(),
{
    if items.len() > 0 && T::view_id(items[0]) != id {
        lemma_place::<T>(items.drop_first(), id);
    }
}

/// Replacing a member by one that goes by the same identifier leaves which identifiers are found,
/// and what is found by another.
proof fn lemma_update_keeps_ids<T: HasId>(items: Seq<T::V>, place: int, item: T::V, id: Seq<char>)
    requires
        0 <= place < items.len(),
        T::view_id(item) == T::view_id(items[place]),
    ensures
        has_id::<T>(items.update(place, item), id) == has_id::<T>(items, id),
        T::view_id(item) != id ==> first_with_id::<T>(items.update(place, item), id)
            == first_with_id::<T>(items, id),
        place == place_of::<T>(items, T::view_id(item)) && T::view_id(item) == id
            ==> first_with_id::<T>(items.update(place, item), id) == Some(item),
    decreases items.len(),
{
    let after = items.update(place, item);
    if place == 0 {
        assert(after.drop_first() =~= items.drop_first());
    } else {
        assert(after[0] == items[0]);
        assert(after.drop_first() =~= items.drop_first().update(place - 1, item));
        lemma_update_keeps_ids::<T>(items.drop_first(), place - 1, item, id);
    }
}

/// Whatever becomes of a provider's pages, the page stays in order while they remain that
/// provider's and the selected provider stays selected.
pub proof fn lemma_with_pane_keeps_page(
    page: ServicesPageView,
    provider_id: Seq<char>,
    pane: AppStoreConnectWorkspaceProviderView,
    state: ServicesPageStateView,
)
    requires
        page_wf(page),
        pane_of(page, provider_id) is Some,
        pane.descriptor == pane_of(page, provider_id).unwrap().descriptor,
        state.provider_id == page.state.provider_id,
    ensures
        page_wf(with_pane(page, provider_id, pane, state)),
        pane_of(with_pane(page, provider_id, pane, state), provider_id) == Some(pane),
        forall|id: Seq<char>|
            id != provider_id ==> #[trigger] pane_of(with_pane(page, provider_id, pane, state), id)
                == pane_of(page, id),
{
    let after = with_pane(page, provider_id, pane, state);
    let place = place_of::<AppStoreConnectWorkspaceProvider>(page.panes, provider_id);
    lemma_place::<AppStoreConnectWorkspaceProvider>(page.panes, provider_id);
    lemma_first_with_id::<AppStoreConnectWorkspaceProvider>(page.panes, provider_id);
    assert forall|id: Seq<char>| #[trigger]
        has_id::<ServiceProviderDescriptor>(after.providers, id) implies pane_of(
        after,
        id,
    ) is Some by {
        lemma_update_keeps_ids::<AppStoreConnectWorkspaceProvider>(page.panes, place, pane, id);
    }
    lemma_update_keeps_ids::<AppStoreConnectWorkspaceProvider>(
        page.panes,
        place,
        pane,
        provider_id,
    );
    assert forall|id: Seq<char>| id != provider_id implies #[trigger] pane_of(after, id) == pane_of(
        page,
        id,
    ) by {
        lemma_update_keeps_ids::<AppStoreConnectWorkspaceProvider>(page.panes, place, pane, id);
    }
}

/// The selected provider stays valid whatever the user does.
pub proof fn lemma_selected_provider_stays_valid(
    page: ServicesPageView,
    provider_id: Seq<char>,
    id: Seq<char>,
    auth: ServiceAuthUiActionView,
    workflow: ServiceWorkflowUiActionView,
)
    requires
        page_wf(page),
    ensures
        page_wf(page_normalized(page)),
        page_wf(page_refreshed(page)),
        has_id::<ServiceProviderDescriptor>(page.providers, provider_id) ==> page_wf(
            provider_selected(page, provider_id),
        ),
        page_wf(navigation_selected(page, id)),
        page_wf(resource_selected(page, id)),
        page_wf(auth_dispatched(page, provider_id, auth)),
        page_wf(workflow_dispatched(page, provider_id, workflow)),
{
    let active = page.state.provider_id;
    lemma_normalized_keeps_page(page);
    lemma_refreshed_keeps_page(page);
    if has_id::<ServiceProviderDescriptor>(page.providers, provider_id) {
        let chosen = provider_chosen(page, provider_id);
        lemma_state_change_keeps_page(page, chosen.state);
        lemma_normalized_keeps_page(chosen);
        lemma_refreshed_keeps_page(page_normalized(chosen));
    }
    let moved = ServicesPageView {
        state: ServicesPageStateView { navigation_id: id, ..page.state },
        ..page
    };
    lemma_state_change_keeps_page(page, moved.state);
    lemma_normalized_keeps_page(moved);
    let pane = active_pane_of(page).unwrap();
    lemma_with_pane_keeps_page(
        page,
        active,
        builds_requested(pane, id),
        builds_requested_state(pane, page.state, id),
    );
    if let Some(pane) = pane_of(page, provider_id) {
        lemma_with_pane_keeps_page(page, provider_id, after_auth_action(pane, auth), page.state);
        lemma_with_pane_keeps_page(
            page,
            provider_id,
            after_workflow_action(pane, page.state, workflow),
            state_after_workflow_action(pane, page.state, workflow),
        );
    }
}

proof fn lemma_state_change_keeps_page(page: ServicesPageView, state: ServicesPageStateView)
    requires
        page_wf(page),
        has_id::<ServiceProviderDescriptor>(page.providers, state.provider_id),
    ensures
        page_wf(ServicesPageView { state, ..page }),
{
    let after = ServicesPageView { state, ..page };
    assert forall|id: Seq<char>| #[trigger]
        has_id::<ServiceProviderDescriptor>(after.providers, id) implies pane_of(
        after,
        id,
    ) is Some by {
        assert(pane_of(after, id) == pane_of(page, id));
    }
}

proof fn lemma_normalized_keeps_page(page: ServicesPageView)
    requires
        page_wf(page),
    ensures
        page_wf(page_normalized(page)),
{
    lemma_state_change_keeps_page(page, page_normalized(page).state);
}

proof fn lemma_refreshed_keeps_page(page: ServicesPageView)
    requires
        page_wf(page),
    ensures
        page_wf(page_refreshed(page)),
{
    let pane = active_pane_of(page).unwrap();
    lemma_with_pane_keeps_page(page, page.state.provider_id, refreshed(pane), page.state);
}

/// A provider that is chosen is selected, shows one of its sections, and is fetched anew; the pages
/// of every other provider stay as they are.
pub proof fn lemma_provider_is_selected(page: ServicesPageView, provider_id: Seq<char>)
    requires
        page_wf(page),
        has_id::<ServiceProviderDescriptor>(page.providers, provider_id),
        page.state.provider_id != provider_id,
    ensures
        ({
            let after = provider_selected(page, provider_id);
            &&& after.state.provider_id == provider_id
            &&& active_pane_of(after) == Some(refreshed(pane_of(page, provider_id).unwrap()))
            &&& forall|id: Seq<char>|
                id != provider_id ==> #[trigger] pane_of(after, id) == pane_of(page, id)
        }),
{
    let chosen = provider_chosen(page, provider_id);
    lemma_state_change_keeps_page(page, chosen.state);
    lemma_normalized_keeps_page(chosen);
    let settled = page_normalized(chosen);
    let pane = active_pane_of(settled).unwrap();
    lemma_with_pane_keeps_page(settled, provider_id, refreshed(pane), settled.state);
    assert forall|id: Seq<char>| id != provider_id implies #[trigger] pane_of(
        provider_selected(page, provider_id),
        id,
    ) == pane_of(page, id) by {
        assert(pane_of(settled, id) == pane_of(page, id));
    }
}

impl ServicesPage {
    /// The page as it opens: the selection put right and the selected provider fetched.
    pub fn new(
        providers: Vec<ServiceProviderDescriptor>,
        panes: Vec<AppStoreConnectWorkspaceProvider>,
        state: ServicesPageState,
    ) -> (r: Self)
        ensures
            r.deep_view() == page_refreshed(
                page_normalized(
                    ServicesPageView {
                        providers: providers.deep_view(),
                        panes: panes.deep_view(),
                        state: state.deep_view(),
                    },
                ),
            ),
    {
        let mut page = ServicesPage { providers, panes, state };
        page.normalize_active_provider_state();
        page.refresh_provider();
        page
    }

    /// The pages of a provider, and the selection, to be worked on.
    pub fn with_provider_mut(&mut self, provider_id: &str) -> (r: Option<
        (&mut AppStoreConnectWorkspaceProvider, &mut ServicesPageState),
    >)
        ensures
            match r {
                Some((pane, state)) => {
                    &&& pane_of(old(self).deep_view(), provider_id@) == Some((*pane).deep_view())
                    &&& (*state).deep_view() == old(self).deep_view().state
                    &&& final(self).deep_view() == with_pane(
                        old(self).deep_view(),
                        provider_id@,
                        (*final(pane)).deep_view(),
                        (*final(state)).deep_view(),
                    )
                },
                None => {
                    &&& pane_of(old(self).deep_view(), provider_id@) is None
                    &&& final(self).deep_view() == old(self).deep_view()
                },
            },
    {
        match position_by_id(&self.panes, provider_id) {
            Some(i) => {
                let pane = &mut self.panes[i];
                Some((pane, &mut self.state))
            },
            None => None,
        }
    }

    /// The selected provider.
    pub fn provider(&self) -> (r: &ServiceProviderDescriptor)
        requires
            page_wf(self.deep_view()),
        ensures
            first_with_id::<ServiceProviderDescriptor>(
                self.deep_view().providers,
                self.deep_view().state.provider_id,
            ) == Some(r.deep_view()),
    {
        find_by_id(&self.providers, self.state.provider_id.as_str()).unwrap()
    }

    /// The pages of the selected provider.
    pub fn active_pane(&self) -> (r: &AppStoreConnectWorkspaceProvider)
        requires
            page_wf(self.deep_view()),
        ensures
            active_pane_of(self.deep_view()) == Some(r.deep_view()),
    {
        find_by_id(&self.panes, self.state.provider_id.as_str()).unwrap()
    }

    /// Puts right what is selected.
    pub fn normalize_active_provider_state(&mut self)
        ensures
            final(self).deep_view() == page_normalized(old(self).deep_view()),
    {
        match position_by_id(&self.panes, self.state.provider_id.as_str()) {
            Some(i) => {
                self.panes[i].normalize_state(&mut self.state);
            },
            None => {},
        }
    }

    /// Fetches the selected provider anew.
    pub fn refresh_provider(&mut self)
        ensures
            final(self).deep_view() == page_refreshed(old(self).deep_view()),
    {
        let ghost before = self.deep_view();
        match position_by_id(&self.panes, self.state.provider_id.as_str()) {
            Some(i) => {
                self.panes[i].refresh();
                assert(self.deep_view().panes =~= before.panes.update(
                    i as int,
                    refreshed(before.panes[i as int]),
                ));
            },
            None => {},
        }
    }

    /// Chooses a provider. Says whether it is another one, to be fetched.
    pub fn select_provider(&mut self, provider_id: String) -> (r: bool)
        requires
            page_wf(old(self).deep_view()),
            has_id::<ServiceProviderDescriptor>(old(self).deep_view().providers, provider_id@),
        ensures
            final(self).deep_view() == provider_selected(old(self).deep_view(), provider_id@),
            page_wf(final(self).deep_view()),
            r == (old(self).deep_view().state.provider_id != provider_id@),
    {
        let ghost before = self.deep_view();
        proof {
            lemma_selected_provider_stays_valid(
                before,
                provider_id@,
                provider_id@,
                ServiceAuthUiActionView::Logout,
                ServiceWorkflowUiActionView::Submit,
            );
        }
        if str_eq(self.state.provider_id.as_str(), provider_id.as_str()) {
            return false;
        }
        let navigation_id = find_by_id(
            &self.providers,
            provider_id.as_str(),
        ).unwrap().shell.default_navigation_item_id.clone();
        self.state.provider_id = provider_id;
        self.state.navigation_id = navigation_id;
        self.state.selected_resource_id = None;
        self.state.selected_target_id = None;
        self.state.selected_workflow_id = None;
        self.normalize_active_provider_state();
        self.refresh_provider();
        true
    }

    /// Chooses a section. Says whether it is another one.
    pub fn select_navigation(&mut self, navigation_id: String) -> (r: bool)
        ensures
            final(self).deep_view() == navigation_selected(old(self).deep_view(), navigation_id@),
            r == (old(self).deep_view().state.navigation_id != navigation_id@),
    {
        if str_eq(self.state.navigation_id.as_str(), navigation_id.as_str()) {
            return false;
        }
        self.state.navigation_id = navigation_id;
        self.normalize_active_provider_state();
        true
    }

    /// Chooses a resource of the selected provider.
    pub fn select_resource(&mut self, resource_id: String) -> (r: Option<BuildsFetch>)
        ensures
            final(self).deep_view() == resource_selected(old(self).deep_view(), resource_id@),
            r.deep_view() == resource_fetch(old(self).deep_view(), resource_id@),
    {
        let ghost before = self.deep_view();
        let provider_id = self.state.provider_id.clone();
        match self.with_provider_mut(provider_id.as_str()) {
            Some((pane, state)) => {
                let r = pane.select_resource(state, resource_id);
                proof {
                    lemma_place::<AppStoreConnectWorkspaceProvider>(before.panes, provider_id@);
                    let place = place_of::<AppStoreConnectWorkspaceProvider>(
                        before.panes,
                        provider_id@,
                    );
                    assert(before.panes.update(place, before.panes[place]) =~= before.panes);
                }
                r
            },
            None => None,
        }
    }

    /// Does what the user does with the controls of a provider's sign-in.
    pub fn dispatch_auth_action(&mut self, provider_id: &str, action: ServiceAuthUiAction) -> (r:
        AuthUiEffect)
        ensures
            final(self).deep_view() == auth_dispatched(
                old(self).deep_view(),
                provider_id@,
                action.deep_view(),
            ),
            match pane_of(old(self).deep_view(), provider_id@) {
                Some(pane) => r.deep_view() == auth_effect(pane, action.deep_view()),
                None => r is Nothing,
            },
    {
        match self.with_provider_mut(provider_id) {
            Some((pane, _state)) => pane.handle_auth_ui_action(action),
            None => AuthUiEffect::Nothing,
        }
    }

    /// Does what the user does with the controls of a provider's workflows.
    pub fn dispatch_workflow_action(
        &mut self,
        provider_id: &str,
        action: ServiceWorkflowUiAction,
    ) -> (r: WorkflowUiEffect)
        ensures
            final(self).deep_view() == workflow_dispatched(
                old(self).deep_view(),
                provider_id@,
                action.deep_view(),
            ),
            match pane_of(old(self).deep_view(), provider_id@) {
                Some(pane) => r.deep_view() == workflow_effect(
                    pane,
                    old(self).deep_view().state,
                    action.deep_view(),
                ),
                None => r is Nothing,
            },
    {
        match self.with_provider_mut(provider_id) {
            Some((pane, state)) => pane.handle_workflow_ui_action(state, action),
            None => WorkflowUiEffect::Nothing,
        }
    }

    /// What the tab of the page is labelled with.
    pub fn tab_content_text(&self) -> (r: String)
        requires
            page_wf(self.deep_view()),
        ensures
            first_with_id::<ServiceProviderDescriptor>(
                self.deep_view().providers,
                self.deep_view().state.provider_id,
            ) matches Some(provider) && r@ == provider.label,
    {
        self.provider().label.clone()
    }
}

} // verus!
