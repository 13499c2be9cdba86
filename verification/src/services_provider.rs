//! What the pages of all service providers have in common.

use crate::text::opt_clone;
use vstd::prelude::*;

verus! {

/// What is selected on the services page.
#[derive(Debug, PartialEq, Eq)]
pub struct ServicesPageState {
    pub provider_id: String,
    pub navigation_id: String,
    pub selected_resource_id: Option<String>,
    pub selected_target_id: Option<String>,
    pub selected_workflow_id: Option<String>,
}

/// The value of a [`ServicesPageState`].
#[verifier::ext_equal]
pub struct ServicesPageStateView {
    pub provider_id: Seq<char>,
    pub navigation_id: Seq<char>,
    pub selected_resource_id: Option<Seq<char>>,
    pub selected_target_id: Option<Seq<char>>,
    pub selected_workflow_id: Option<Seq<char>>,
}

impl DeepView for ServicesPageState {
    type V = ServicesPageStateView;

    open spec fn deep_view(&self) -> ServicesPageStateView {
        ServicesPageStateView {
            provider_id: self.provider_id@,
            navigation_id: self.navigation_id@,
            selected_resource_id: self.selected_resource_id.deep_view(),
            selected_target_id: self.selected_target_id.deep_view(),
            selected_workflow_id: self.selected_workflow_id.deep_view(),
        }
    }
}

impl Clone for ServicesPageState {
    fn clone(&self) -> (r: Self)
        ensures
            r.deep_view() == self.deep_view(),
    {
        ServicesPageState {
            provider_id: self.provider_id.clone(),
            navigation_id: self.navigation_id.clone(),
            selected_resource_id: opt_clone(&self.selected_resource_id),
            selected_target_id: opt_clone(&self.selected_target_id),
            selected_workflow_id: opt_clone(&self.selected_workflow_id),
        }
    }
}

/// An entry of the menu of resources.
#[derive(Debug, PartialEq, Eq)]
pub struct ServiceResourceMenuEntry {
    pub id: String,
    pub label: String,
    pub detail: Option<String>,
}

/// The value of a [`ServiceResourceMenuEntry`].
#[verifier::ext_equal]
pub struct ServiceResourceMenuEntryView {
    pub id: Seq<char>,
    pub label: Seq<char>,
    pub detail: Option<Seq<char>>,
}

impl DeepView for ServiceResourceMenuEntry {
    type V = ServiceResourceMenuEntryView;

    open spec fn deep_view(&self) -> ServiceResourceMenuEntryView {
        ServiceResourceMenuEntryView {
            id: self.id@,
            label: self.label@,
            detail: self.detail.deep_view(),
        }
    }
}

impl Clone for ServiceResourceMenuEntry {
    fn clone(&self) -> (r: Self)
        ensures
            r.deep_view() == self.deep_view(),
    {
        ServiceResourceMenuEntry {
            id: self.id.clone(),
            label: self.label.clone(),
            detail: opt_clone(&self.detail),
        }
    }
}

/// The menu of resources.
#[derive(Debug, PartialEq, Eq)]
pub struct ServiceResourceMenuModel {
    pub singular_label: String,
    pub current_label: String,
    pub entries: Vec<ServiceResourceMenuEntry>,
    pub disabled: bool,
}

/// The value of a [`ServiceResourceMenuModel`].
#[verifier::ext_equal]
pub struct ServiceResourceMenuModelView {
    pub singular_label: Seq<char>,
    pub current_label: Seq<char>,
    pub entries: Seq<ServiceResourceMenuEntryView>,
    pub disabled: bool,
}

impl DeepView for ServiceResourceMenuModel {
    type V = ServiceResourceMenuModelView;

    open spec fn deep_view(&self) -> ServiceResourceMenuModelView {
        ServiceResourceMenuModelView {
            singular_label: self.singular_label@,
            current_label: self.current_label@,
            entries: self.entries.deep_view(),
            disabled: self.disabled,
        }
    }
}

impl Clone for ServiceResourceMenuModel {
    fn clone(&self) -> (r: Self)
        ensures
            r.deep_view() == self.deep_view(),
    {
        let r = ServiceResourceMenuModel {
            singular_label: self.singular_label.clone(),
            current_label: self.current_label.clone(),
            entries: self.entries.clone(),
            disabled: self.disabled,
        };
        assert(r.entries.deep_view() =~= self.entries.deep_view());
        r
    }
}

} // verus!
