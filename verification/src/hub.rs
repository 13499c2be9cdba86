//! What a service provider offers, and the requests that are made of it.

use crate::input::ServiceInput;
use crate::lookup::{contains_string, HasId};
use crate::text::{opt_clone, strings_clone};
use vstd::prelude::*;

verus! {

/// What a workflow does.
#[derive(Clone, Copy, Debug, PartialEq, Eq, Structural)]
pub enum ServiceWorkflowKind {
    Deploy,
    Release,
    Status,
}

/// How an input is entered.
#[derive(Clone, Copy, Debug, PartialEq, Eq, Structural)]
pub enum ServiceInputKind {
    Text,
    FilePath,
    Toggle,
}

/// What can be done about credentials.
#[derive(Clone, Copy, Debug, PartialEq, Eq, Structural)]
pub enum ServiceAuthAction {
    Authenticate,
    Logout,
}

/// The form of a build product.
#[derive(Clone, Copy, Debug, PartialEq, Eq, Structural)]
pub enum ServiceArtifactKind {
    Ipa,
    Pkg,
    AppBundle,
    Binary,
}

/// How far a workflow run has come.
#[derive(Clone, Copy, Debug, PartialEq, Eq, Structural)]
pub enum ServiceRunState {
    Pending,
    Running,
    Succeeded,
    Failed,
}

/// A section of a provider's pages.
#[derive(Debug, PartialEq, Eq)]
pub struct ServiceNavigationItem {
    pub id: String,
    pub label: String,
}

/// The value of a [`ServiceNavigationItem`].
#[verifier::ext_equal]
pub struct ServiceNavigationItemView {
    pub id: Seq<char>,
    pub label: Seq<char>,
}

impl DeepView for ServiceNavigationItem {
    type V = ServiceNavigationItemView;

    open spec fn deep_view(&self) -> ServiceNavigationItemView {
        ServiceNavigationItemView {
            id: self.id@,
            label: self.label@,
        }
    }
}

impl Clone for ServiceNavigationItem {
    fn clone(&self) -> (r: Self)
        ensures
            r.deep_view() == self.deep_view(),
    {
        ServiceNavigationItem {
            id: self.id.clone(),
            label: self.label.clone(),
        }
    }
}

impl HasId for ServiceNavigationItem {
    open spec fn view_id(v: ServiceNavigationItemView) -> Seq<char> {
        v.id
    }

    fn id_str(&self) -> (r: &str) {
        self.id.as_str()
    }
}

/// What a provider calls the things it manages.
#[derive(Debug, PartialEq, Eq)]
pub struct ServiceResourceKind {
    pub singular_label: String,
    pub plural_label: String,
}

/// The value of a [`ServiceResourceKind`].
#[verifier::ext_equal]
pub struct ServiceResourceKindView {
    pub singular_label: Seq<char>,
    pub plural_label: Seq<char>,
}

impl DeepView for ServiceResourceKind {
    type V = ServiceResourceKindView;

    open spec fn deep_view(&self) -> ServiceResourceKindView {
        ServiceResourceKindView {
            singular_label: self.singular_label@,
            plural_label: self.plural_label@,
        }
    }
}

impl Clone for ServiceResourceKind {
    fn clone(&self) -> (r: Self)
        ensures
            r.deep_view() == self.deep_view(),
    {
        ServiceResourceKind {
            singular_label: self.singular_label.clone(),
            plural_label: self.plural_label.clone(),
        }
    }
}

/// The frame that a provider's pages stand in.
#[derive(Debug, PartialEq, Eq)]
pub struct ServiceShellDescriptor {
    pub navigation_items: Vec<ServiceNavigationItem>,
    pub default_navigation_item_id: String,
    pub resource_kind: Option<ServiceResourceKind>,
}

/// The value of a [`ServiceShellDescriptor`].
#[verifier::ext_equal]
pub struct ServiceShellDescriptorView {
    pub navigation_items: Seq<ServiceNavigationItemView>,
    pub default_navigation_item_id: Seq<char>,
    pub resource_kind: Option<ServiceResourceKindView>,
}

impl DeepView for ServiceShellDescriptor {
    type V = ServiceShellDescriptorView;

    open spec fn deep_view(&self) -> ServiceShellDescriptorView {
        ServiceShellDescriptorView {
            navigation_items: self.navigation_items.deep_view(),
            default_navigation_item_id: self.default_navigation_item_id@,
            resource_kind: self.resource_kind.deep_view(),
        }
    }
}

impl Clone for ServiceShellDescriptor {
    fn clone(&self) -> (r: Self)
        ensures
            r.deep_view() == self.deep_view(),
    {
        let r = ServiceShellDescriptor {
            navigation_items: self.navigation_items.clone(),
            default_navigation_item_id: self.default_navigation_item_id.clone(),
            resource_kind: self.resource_kind.clone(),
        };
        assert(r.navigation_items.deep_view() =~= self.navigation_items.deep_view());
        r
    }
}

/// Where a workflow can be run against.
#[derive(Debug, PartialEq, Eq)]
pub struct ServiceTargetDescriptor {
    pub id: String,
    pub label: String,
    pub detail: Option<String>,
}

/// The value of a [`ServiceTargetDescriptor`].
#[verifier::ext_equal]
pub struct ServiceTargetDescriptorView {
    pub id: Seq<char>,
    pub label: Seq<char>,
    pub detail: Option<Seq<char>>,
}

impl DeepView for ServiceTargetDescriptor {
    type V = ServiceTargetDescriptorView;

    open spec fn deep_view(&self) -> ServiceTargetDescriptorView {
        ServiceTargetDescriptorView {
            id: self.id@,
            label: self.label@,
            detail: self.detail.deep_view(),
        }
    }
}

impl Clone for ServiceTargetDescriptor {
    fn clone(&self) -> (r: Self)
        ensures
            r.deep_view() == self.deep_view(),
    {
        ServiceTargetDescriptor {
            id: self.id.clone(),
            label: self.label.clone(),
            detail: opt_clone(&self.detail),
        }
    }
}

impl HasId for ServiceTargetDescriptor {
    open spec fn view_id(v: ServiceTargetDescriptorView) -> Seq<char> {
        v.id
    }

    fn id_str(&self) -> (r: &str) {
        self.id.as_str()
    }
}

/// A workflow that a provider offers.
#[derive(Debug, PartialEq, Eq)]
pub struct ServiceWorkflowDescriptor {
    pub id: String,
    pub label: String,
    pub detail: String,
    pub kind: ServiceWorkflowKind,
    /// The targets that the workflow lists.
    pub target_ids: Vec<String>,
    /// Whether it runs with no target chosen.
    pub supports_untargeted: bool,
    /// The targets of the provider that it runs against.
    pub supported_target_ids: Vec<String>,
    /// Whether it works on one of the provider's resources.
    pub needs_resource: bool,
}

/// The value of a [`ServiceWorkflowDescriptor`].
#[verifier::ext_equal]
pub struct ServiceWorkflowDescriptorView {
    pub id: Seq<char>,
    pub label: Seq<char>,
    pub detail: Seq<char>,
    pub kind: ServiceWorkflowKind,
    pub target_ids: Seq<Seq<char>>,
    pub supports_untargeted: bool,
    pub supported_target_ids: Seq<Seq<char>>,
    pub needs_resource: bool,
}

impl DeepView for ServiceWorkflowDescriptor {
    type V = ServiceWorkflowDescriptorView;

    open spec fn deep_view(&self) -> ServiceWorkflowDescriptorView {
        ServiceWorkflowDescriptorView {
            id: self.id@,
            label: self.label@,
            detail: self.detail@,
            kind: self.kind,
            target_ids: self.target_ids.deep_view(),
            supports_untargeted: self.supports_untargeted,
            supported_target_ids: self.supported_target_ids.deep_view(),
            needs_resource: self.needs_resource,
        }
    }
}

impl Clone for ServiceWorkflowDescriptor {
    fn clone(&self) -> (r: Self)
        ensures
            r.deep_view() == self.deep_view(),
    {
        ServiceWorkflowDescriptor {
            id: self.id.clone(),
            label: self.label.clone(),
            detail: self.detail.clone(),
            kind: self.kind,
            target_ids: strings_clone(&self.target_ids),
            supports_untargeted: self.supports_untargeted,
            supported_target_ids: strings_clone(&self.supported_target_ids),
            needs_resource: self.needs_resource,
        }
    }
}

impl HasId for ServiceWorkflowDescriptor {
    open spec fn view_id(v: ServiceWorkflowDescriptorView) -> Seq<char> {
        v.id
    }

    fn id_str(&self) -> (r: &str) {
        self.id.as_str()
    }
}

/// An input that an action asks for.
#[derive(Debug, PartialEq, Eq)]
pub struct ServiceInputDescriptor {
    pub key: String,
    pub label: String,
    pub kind: ServiceInputKind,
    pub required: bool,
    pub placeholder: Option<String>,
}

/// The value of a [`ServiceInputDescriptor`].
#[verifier::ext_equal]
pub struct ServiceInputDescriptorView {
    pub key: Seq<char>,
    pub label: Seq<char>,
    pub kind: ServiceInputKind,
    pub required: bool,
    pub placeholder: Option<Seq<char>>,
}

impl DeepView for ServiceInputDescriptor {
    type V = ServiceInputDescriptorView;

    open spec fn deep_view(&self) -> ServiceInputDescriptorView {
        ServiceInputDescriptorView {
            key: self.key@,
            label: self.label@,
            kind: self.kind,
            required: self.required,
            placeholder: self.placeholder.deep_view(),
        }
    }
}

impl Clone for ServiceInputDescriptor {
    fn clone(&self) -> (r: Self)
        ensures
            r.deep_view() == self.deep_view(),
    {
        ServiceInputDescriptor {
            key: self.key.clone(),
            label: self.label.clone(),
            kind: self.kind,
            required: self.required,
            placeholder: opt_clone(&self.placeholder),
        }
    }
}

impl HasId for ServiceInputDescriptor {
    open spec fn view_id(v: ServiceInputDescriptorView) -> Seq<char> {
        v.key
    }

    fn id_str(&self) -> (r: &str) {
        self.key.as_str()
    }
}

/// An authentication action and the inputs it asks for.
#[derive(Debug, PartialEq, Eq)]
pub struct ServiceAuthActionDescriptor {
    pub action: ServiceAuthAction,
    pub inputs: Vec<ServiceInputDescriptor>,
}

/// The value of a [`ServiceAuthActionDescriptor`].
#[verifier::ext_equal]
pub struct ServiceAuthActionDescriptorView {
    pub action: ServiceAuthAction,
    pub inputs: Seq<ServiceInputDescriptorView>,
}

impl DeepView for ServiceAuthActionDescriptor {
    type V = ServiceAuthActionDescriptorView;

    open spec fn deep_view(&self) -> ServiceAuthActionDescriptorView {
        ServiceAuthActionDescriptorView {
            action: self.action,
            inputs: self.inputs.deep_view(),
        }
    }
}

impl Clone for ServiceAuthActionDescriptor {
    fn clone(&self) -> (r: Self)
        ensures
            r.deep_view() == self.deep_view(),
    {
        let r = ServiceAuthActionDescriptor {
            action: self.action,
            inputs: self.inputs.clone(),
        };
        assert(r.inputs.deep_view() =~= self.inputs.deep_view());
        r
    }
}

/// The authentication actions of a provider.
#[derive(Debug, PartialEq, Eq)]
pub struct ServiceAuthDescriptor {
    pub actions: Vec<ServiceAuthActionDescriptor>,
}

/// The value of a [`ServiceAuthDescriptor`].
#[verifier::ext_equal]
pub struct ServiceAuthDescriptorView {
    pub actions: Seq<ServiceAuthActionDescriptorView>,
}

impl DeepView for ServiceAuthDescriptor {
    type V = ServiceAuthDescriptorView;

    open spec fn deep_view(&self) -> ServiceAuthDescriptorView {
        ServiceAuthDescriptorView {
            actions: self.actions.deep_view(),
        }
    }
}

impl Clone for ServiceAuthDescriptor {
    fn clone(&self) -> (r: Self)
        ensures
            r.deep_view() == self.deep_view(),
    {
        let r = ServiceAuthDescriptor {
            actions: self.actions.clone(),
        };
        assert(r.actions.deep_view() =~= self.actions.deep_view());
        r
    }
}

/// A service provider.
#[derive(Debug, PartialEq, Eq)]
pub struct ServiceProviderDescriptor {
    pub id: String,
    pub label: String,
    pub shell: ServiceShellDescriptor,
    pub auth: Option<ServiceAuthDescriptor>,
    pub targets: Vec<ServiceTargetDescriptor>,
    pub workflows: Vec<ServiceWorkflowDescriptor>,
}

/// The value of a [`ServiceProviderDescriptor`].
#[verifier::ext_equal]
pub struct ServiceProviderDescriptorView {
    pub id: Seq<char>,
    pub label: Seq<char>,
    pub shell: ServiceShellDescriptorView,
    pub auth: Option<ServiceAuthDescriptorView>,
    pub targets: Seq<ServiceTargetDescriptorView>,
    pub workflows: Seq<ServiceWorkflowDescriptorView>,
}

impl DeepView for ServiceProviderDescriptor {
    type V = ServiceProviderDescriptorView;

    open spec fn deep_view(&self) -> ServiceProviderDescriptorView {
        ServiceProviderDescriptorView {
            id: self.id@,
            label: self.label@,
            shell: self.shell.deep_view(),
            auth: self.auth.deep_view(),
            targets: self.targets.deep_view(),
            workflows: self.workflows.deep_view(),
        }
    }
}

impl Clone for ServiceProviderDescriptor {
    fn clone(&self) -> (r: Self)
        ensures
            r.deep_view() == self.deep_view(),
    {
        let r = ServiceProviderDescriptor {
            id: self.id.clone(),
            label: self.label.clone(),
            shell: self.shell.clone(),
            auth: self.auth.clone(),
            targets: self.targets.clone(),
            workflows: self.workflows.clone(),
        };
        assert(r.targets.deep_view() =~= self.targets.deep_view());
        assert(r.workflows.deep_view() =~= self.workflows.deep_view());
        r
    }
}

impl HasId for ServiceProviderDescriptor {
    open spec fn view_id(v: ServiceProviderDescriptorView) -> Seq<char> {
        v.id
    }

    fn id_str(&self) -> (r: &str) {
        self.id.as_str()
    }
}

/// The workflow runs against `target`.
pub open spec fn workflow_supports(
    workflow: ServiceWorkflowDescriptorView,
    target: Option<Seq<char>>,
) -> bool {
    match target {
        Some(target) => workflow.supported_target_ids.contains(target),
        None => workflow.supports_untargeted,
    }
}

impl ServiceWorkflowDescriptor {
    /// Whether the workflow runs against `target`.
    pub fn supports_target(&self, target: &Option<String>) -> (r: bool)
        ensures
            r == workflow_supports(self.deep_view(), target.deep_view()),
    {
        match target {
            Some(target) => contains_string(&self.supported_target_ids, target.as_str()),
            None => self.supports_untargeted,
        }
    }
}

/// A resource of a provider.
#[derive(Debug, PartialEq, Eq)]
pub struct ServiceResourceRef {
    pub provider_id: String,
    pub kind: String,
    pub external_id: String,
    pub label: String,
}

/// The value of a [`ServiceResourceRef`].
#[verifier::ext_equal]
pub struct ServiceResourceRefView {
    pub provider_id: Seq<char>,
    pub kind: Seq<char>,
    pub external_id: Seq<char>,
    pub label: Seq<char>,
}

impl DeepView for ServiceResourceRef {
    type V = ServiceResourceRefView;

    open spec fn deep_view(&self) -> ServiceResourceRefView {
        ServiceResourceRefView {
            provider_id: self.provider_id@,
            kind: self.kind@,
            external_id: self.external_id@,
            label: self.label@,
        }
    }
}

impl Clone for ServiceResourceRef {
    fn clone(&self) -> (r: Self)
        ensures
            r.deep_view() == self.deep_view(),
    {
        ServiceResourceRef {
            provider_id: self.provider_id.clone(),
            kind: self.kind.clone(),
            external_id: self.external_id.clone(),
            label: self.label.clone(),
        }
    }
}

/// A build product on disk.
#[derive(Debug, PartialEq, Eq)]
pub struct ServiceArtifactRef {
    pub kind: ServiceArtifactKind,
    pub path: String,
}

/// The value of a [`ServiceArtifactRef`].
#[verifier::ext_equal]
pub struct ServiceArtifactRefView {
    pub kind: ServiceArtifactKind,
    pub path: Seq<char>,
}

impl DeepView for ServiceArtifactRef {
    type V = ServiceArtifactRefView;

    open spec fn deep_view(&self) -> ServiceArtifactRefView {
        ServiceArtifactRefView {
            kind: self.kind,
            path: self.path@,
        }
    }
}

impl Clone for ServiceArtifactRef {
    fn clone(&self) -> (r: Self)
        ensures
            r.deep_view() == self.deep_view(),
    {
        ServiceArtifactRef {
            kind: self.kind,
            path: self.path.clone(),
        }
    }
}

/// An operation asked of a provider's command line.
#[derive(Debug, PartialEq, Eq)]
pub struct ServiceOperationRequest {
    pub provider_id: String,
    pub operation: String,
    pub resource: Option<ServiceResourceRef>,
    pub artifact: Option<ServiceArtifactRef>,
    pub input: ServiceInput,
}

/// The value of a [`ServiceOperationRequest`].
#[verifier::ext_equal]
pub struct ServiceOperationRequestView {
    pub provider_id: Seq<char>,
    pub operation: Seq<char>,
    pub resource: Option<ServiceResourceRefView>,
    pub artifact: Option<ServiceArtifactRefView>,
    pub input: Map<Seq<char>, Seq<char>>,
}

impl DeepView for ServiceOperationRequest {
    type V = ServiceOperationRequestView;

    open spec fn deep_view(&self) -> ServiceOperationRequestView {
        ServiceOperationRequestView {
            provider_id: self.provider_id@,
            operation: self.operation@,
            resource: self.resource.deep_view(),
            artifact: self.artifact.deep_view(),
            input: self.input.deep_view(),
        }
    }
}

impl Clone for ServiceOperationRequest {
    fn clone(&self) -> (r: Self)
        ensures
            r.deep_view() == self.deep_view(),
    {
        ServiceOperationRequest {
            provider_id: self.provider_id.clone(),
            operation: self.operation.clone(),
            resource: self.resource.clone(),
            artifact: self.artifact.clone(),
            input: self.input.clone(),
        }
    }
}

/// An authentication action asked of a provider.
#[derive(Debug, PartialEq, Eq)]
pub struct ServiceAuthActionRequest {
    pub provider_id: String,
    pub action: ServiceAuthAction,
    pub input: ServiceInput,
}

/// The value of a [`ServiceAuthActionRequest`].
#[verifier::ext_equal]
pub struct ServiceAuthActionRequestView {
    pub provider_id: Seq<char>,
    pub action: ServiceAuthAction,
    pub input: Map<Seq<char>, Seq<char>>,
}

impl DeepView for ServiceAuthActionRequest {
    type V = ServiceAuthActionRequestView;

    open spec fn deep_view(&self) -> ServiceAuthActionRequestView {
        ServiceAuthActionRequestView {
            provider_id: self.provider_id@,
            action: self.action,
            input: self.input.deep_view(),
        }
    }
}

impl Clone for ServiceAuthActionRequest {
    fn clone(&self) -> (r: Self)
        ensures
            r.deep_view() == self.deep_view(),
    {
        ServiceAuthActionRequest {
            provider_id: self.provider_id.clone(),
            action: self.action,
            input: self.input.clone(),
        }
    }
}

/// A workflow run asked of a provider.
#[derive(Debug, PartialEq, Eq)]
pub struct ServiceWorkflowRequest {
    pub provider_id: String,
    pub workflow: String,
    pub target_id: Option<String>,
    pub resource: Option<ServiceResourceRef>,
    pub artifact: Option<ServiceArtifactRef>,
    pub input: ServiceInput,
}

/// The value of a [`ServiceWorkflowRequest`].
#[verifier::ext_equal]
pub struct ServiceWorkflowRequestView {
    pub provider_id: Seq<char>,
    pub workflow: Seq<char>,
    pub target_id: Option<Seq<char>>,
    pub resource: Option<ServiceResourceRefView>,
    pub artifact: Option<ServiceArtifactRefView>,
    pub input: Map<Seq<char>, Seq<char>>,
}

impl DeepView for ServiceWorkflowRequest {
    type V = ServiceWorkflowRequestView;

    open spec fn deep_view(&self) -> ServiceWorkflowRequestView {
        ServiceWorkflowRequestView {
            provider_id: self.provider_id@,
            workflow: self.workflow@,
            target_id: self.target_id.deep_view(),
            resource: self.resource.deep_view(),
            artifact: self.artifact.deep_view(),
            input: self.input.deep_view(),
        }
    }
}

impl Clone for ServiceWorkflowRequest {
    fn clone(&self) -> (r: Self)
        ensures
            r.deep_view() == self.deep_view(),
    {
        ServiceWorkflowRequest {
            provider_id: self.provider_id.clone(),
            workflow: self.workflow.clone(),
            target_id: opt_clone(&self.target_id),
            resource: self.resource.clone(),
            artifact: self.artifact.clone(),
            input: self.input.clone(),
        }
    }
}

/// The latest run of a workflow.
#[derive(Debug, PartialEq, Eq)]
pub struct ServiceRunDescriptor {
    pub workflow: String,
    pub target_id: Option<String>,
    pub state: ServiceRunState,
    pub headline: String,
    pub detail: String,
    pub output: Option<String>,
}

/// The value of a [`ServiceRunDescriptor`].
#[verifier::ext_equal]
pub struct ServiceRunDescriptorView {
    pub workflow: Seq<char>,
    pub target_id: Option<Seq<char>>,
    pub state: ServiceRunState,
    pub headline: Seq<char>,
    pub detail: Seq<char>,
    pub output: Option<Seq<char>>,
}

impl DeepView for ServiceRunDescriptor {
    type V = ServiceRunDescriptorView;

    open spec fn deep_view(&self) -> ServiceRunDescriptorView {
        ServiceRunDescriptorView {
            workflow: self.workflow@,
            target_id: self.target_id.deep_view(),
            state: self.state,
            headline: self.headline@,
            detail: self.detail@,
            output: self.output.deep_view(),
        }
    }
}

impl Clone for ServiceRunDescriptor {
    fn clone(&self) -> (r: Self)
        ensures
            r.deep_view() == self.deep_view(),
    {
        ServiceRunDescriptor {
            workflow: self.workflow.clone(),
            target_id: opt_clone(&self.target_id),
            state: self.state,
            headline: self.headline.clone(),
            detail: self.detail.clone(),
            output: opt_clone(&self.output),
        }
    }
}

} // verus!
