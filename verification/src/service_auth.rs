//! The form by which a user signs in to a service.

use crate::appearance::Severity;
use crate::hub::{ServiceAuthAction, ServiceAuthActionDescriptor, ServiceAuthActionDescriptorView};
use crate::hub::{ServiceAuthActionRequest, ServiceAuthActionRequestView, ServiceAuthDescriptorView};
use crate::hub::{ServiceInputDescriptor, ServiceInputDescriptorView, ServiceInputKind};
use crate::hub::{ServiceProviderDescriptor, ServiceProviderDescriptorView};
use crate::input::ServiceInput;
use crate::text::{opt_clone, str_eq, strings_clone, trim, trimmed};
use vstd::prelude::*;
use vstd::string::*;

verus! {

/// Whether a box is ticked.
#[derive(Clone, Copy, Debug, PartialEq, Eq, Structural)]
pub enum ToggleState {
    Unselected,
    Indeterminate,
    Selected,
}

impl ToggleState {
    /// Whether the box is ticked all the way.
    pub fn selected(self) -> (r: bool)
        ensures
            r == (self == ToggleState::Selected),
    {
        match self {
            ToggleState::Selected => true,
            ToggleState::Unselected | ToggleState::Indeterminate => false,
        }
    }
}

/// A field of the form.
#[derive(Debug, PartialEq, Eq)]
pub enum ServiceAuthFieldState {
    /// A line of text. Fields are reached by the tab key in the order of `tab_index`.
    Text { descriptor: ServiceInputDescriptor, text: String, tab_index: usize },
    /// A box to tick.
    Toggle { descriptor: ServiceInputDescriptor, value: ToggleState },
}

/// The value of a [`ServiceAuthFieldState`].
#[verifier::ext_equal]
pub enum ServiceAuthFieldStateView {
    Text { descriptor: ServiceInputDescriptorView, text: Seq<char>, tab_index: usize },
    Toggle { descriptor: ServiceInputDescriptorView, value: ToggleState },
}

impl DeepView for ServiceAuthFieldState {
    type V = ServiceAuthFieldStateView;

    open spec fn deep_view(&self) -> ServiceAuthFieldStateView {
        match self {
            ServiceAuthFieldState::Text { descriptor, text, tab_index } => {
                ServiceAuthFieldStateView::Text {
                    descriptor: descriptor.deep_view(),
                    text: text@,
                    tab_index: *tab_index,
                }
            },
            ServiceAuthFieldState::Toggle { descriptor, value } => {
                ServiceAuthFieldStateView::Toggle {
                    descriptor: descriptor.deep_view(),
                    value: *value,
                }
            },
        }
    }
}

impl Clone for ServiceAuthFieldState {
    fn clone(&self) -> (r: Self)
        ensures
            r.deep_view() == self.deep_view(),
    {
        match self {
            ServiceAuthFieldState::Text { descriptor, text, tab_index } => {
                ServiceAuthFieldState::Text {
                    descriptor: descriptor.clone(),
                    text: text.clone(),
                    tab_index: *tab_index,
                }
            },
            ServiceAuthFieldState::Toggle { descriptor, value } => ServiceAuthFieldState::Toggle {
                descriptor: descriptor.clone(),
                value: *value,
            },
        }
    }
}

/// The form by which a user signs in.
#[derive(Debug, PartialEq, Eq)]
pub struct ServiceAuthFormState {
    pub authenticate_descriptor: Option<ServiceAuthActionDescriptor>,
    pub fields: Vec<ServiceAuthFieldState>,
    pub expanded: bool,
    pub pending: bool,
    pub error_message: Option<String>,
    pub logout_available: bool,
}

/// The value of a [`ServiceAuthFormState`].
#[verifier::ext_equal]
pub struct ServiceAuthFormStateView {
    pub authenticate_descriptor: Option<ServiceAuthActionDescriptorView>,
    pub fields: Seq<ServiceAuthFieldStateView>,
    pub expanded: bool,
    pub pending: bool,
    pub error_message: Option<Seq<char>>,
    pub logout_available: bool,
}

impl DeepView for ServiceAuthFormState {
    type V = ServiceAuthFormStateView;

    open spec fn deep_view(&self) -> ServiceAuthFormStateView {
        ServiceAuthFormStateView {
            authenticate_descriptor: self.authenticate_descriptor.deep_view(),
            fields: self.fields.deep_view(),
            expanded: self.expanded,
            pending: self.pending,
            error_message: self.error_message.deep_view(),
            logout_available: self.logout_available,
        }
    }
}

impl Clone for ServiceAuthFormState {
    fn clone(&self) -> (r: Self)
        ensures
            r.deep_view() == self.deep_view(),
    {
        let r = ServiceAuthFormState {
            authenticate_descriptor: self.authenticate_descriptor.clone(),
            fields: self.fields.clone(),
            expanded: self.expanded,
            pending: self.pending,
            error_message: opt_clone(&self.error_message),
            logout_available: self.logout_available,
        };
        assert(r.fields.deep_view() =~= self.fields.deep_view());
        r
    }
}

/// Whether the user is signed in, as it is shown.
#[derive(Debug, PartialEq, Eq)]
pub struct ServiceAuthStatusSummary {
    pub severity: Severity,
    pub headline: String,
    pub detail: String,
    pub warnings: Vec<String>,
    pub authenticated: bool,
}

/// The value of a [`ServiceAuthStatusSummary`].
#[verifier::ext_equal]
pub struct ServiceAuthStatusSummaryView {
    pub severity: Severity,
    pub headline: Seq<char>,
    pub detail: Seq<char>,
    pub warnings: Seq<Seq<char>>,
    pub authenticated: bool,
}

impl DeepView for ServiceAuthStatusSummary {
    type V = ServiceAuthStatusSummaryView;

    open spec fn deep_view(&self) -> ServiceAuthStatusSummaryView {
        ServiceAuthStatusSummaryView {
            severity: self.severity,
            headline: self.headline@,
            detail: self.detail@,
            warnings: self.warnings.deep_view(),
            authenticated: self.authenticated,
        }
    }
}

impl Clone for ServiceAuthStatusSummary {
    fn clone(&self) -> (r: Self)
        ensures
            r.deep_view() == self.deep_view(),
    {
        ServiceAuthStatusSummary {
            severity: self.severity,
            headline: self.headline.clone(),
            detail: self.detail.clone(),
            warnings: strings_clone(&self.warnings),
            authenticated: self.authenticated,
        }
    }
}

/// What the controls of the sign-in show.
#[derive(Debug, PartialEq, Eq)]
pub struct ServiceAuthUiModel {
    pub provider_id: String,
    pub authenticate_label: String,
    pub reauthenticate_label: String,
    pub logout_label: String,
    pub status: ServiceAuthStatusSummary,
    pub form: ServiceAuthFormState,
}

/// The value of a [`ServiceAuthUiModel`].
#[verifier::ext_equal]
pub struct ServiceAuthUiModelView {
    pub provider_id: Seq<char>,
    pub authenticate_label: Seq<char>,
    pub reauthenticate_label: Seq<char>,
    pub logout_label: Seq<char>,
    pub status: ServiceAuthStatusSummaryView,
    pub form: ServiceAuthFormStateView,
}

impl DeepView for ServiceAuthUiModel {
    type V = ServiceAuthUiModelView;

    open spec fn deep_view(&self) -> ServiceAuthUiModelView {
        ServiceAuthUiModelView {
            provider_id: self.provider_id@,
            authenticate_label: self.authenticate_label@,
            reauthenticate_label: self.reauthenticate_label@,
            logout_label: self.logout_label@,
            status: self.status.deep_view(),
            form: self.form.deep_view(),
        }
    }
}

impl Clone for ServiceAuthUiModel {
    fn clone(&self) -> (r: Self)
        ensures
            r.deep_view() == self.deep_view(),
    {
        ServiceAuthUiModel {
            provider_id: self.provider_id.clone(),
            authenticate_label: self.authenticate_label.clone(),
            reauthenticate_label: self.reauthenticate_label.clone(),
            logout_label: self.logout_label.clone(),
            status: self.status.clone(),
            form: self.form.clone(),
        }
    }
}

/// What a user does with the controls of the sign-in.
#[derive(Debug, PartialEq, Eq)]
pub enum ServiceAuthUiAction {
    ShowAuthenticate,
    CancelAuthenticate,
    SubmitAuthenticate,
    Logout,
    PickFile { field_key: String },
    SetToggle { field_key: String, value: ToggleState },
}

/// The value of a [`ServiceAuthUiAction`].
#[verifier::ext_equal]
pub enum ServiceAuthUiActionView {
    ShowAuthenticate,
    CancelAuthenticate,
    SubmitAuthenticate,
    Logout,
    PickFile { field_key: Seq<char> },
    SetToggle { field_key: Seq<char>, value: ToggleState },
}

impl DeepView for ServiceAuthUiAction {
    type V = ServiceAuthUiActionView;

    open spec fn deep_view(&self) -> ServiceAuthUiActionView {
        match self {
            ServiceAuthUiAction::ShowAuthenticate => ServiceAuthUiActionView::ShowAuthenticate,
            ServiceAuthUiAction::CancelAuthenticate => ServiceAuthUiActionView::CancelAuthenticate,
            ServiceAuthUiAction::SubmitAuthenticate => ServiceAuthUiActionView::SubmitAuthenticate,
            ServiceAuthUiAction::Logout => ServiceAuthUiActionView::Logout,
            ServiceAuthUiAction::PickFile { field_key } => ServiceAuthUiActionView::PickFile {
                field_key: field_key@,
            },
            ServiceAuthUiAction::SetToggle { field_key, value } => ServiceAuthUiActionView::SetToggle {
                field_key: field_key@,
                value: *value,
            },
        }
    }
}

impl Clone for ServiceAuthUiAction {
    fn clone(&self) -> (r: Self)
        ensures
            r.deep_view() == self.deep_view(),
    {
        match self {
            ServiceAuthUiAction::ShowAuthenticate => ServiceAuthUiAction::ShowAuthenticate,
            ServiceAuthUiAction::CancelAuthenticate => ServiceAuthUiAction::CancelAuthenticate,
            ServiceAuthUiAction::SubmitAuthenticate => ServiceAuthUiAction::SubmitAuthenticate,
            ServiceAuthUiAction::Logout => ServiceAuthUiAction::Logout,
            ServiceAuthUiAction::PickFile { field_key } => {
                ServiceAuthUiAction::PickFile { field_key: field_key.clone() }
            },
            ServiceAuthUiAction::SetToggle { field_key, value } => {
                ServiceAuthUiAction::SetToggle { field_key: field_key.clone(), value: *value }
            },
        }
    }
}

/// The first of `actions` that does `action`.
pub open spec fn action_descriptor(
    actions: Seq<ServiceAuthActionDescriptorView>,
    action: ServiceAuthAction,
) -> Option<ServiceAuthActionDescriptorView>
    decreases actions.len(),
{
    if actions.len() == 0 {
        None
    } else if actions[0].action == action {
        Some(actions[0])
    } else {
        action_descriptor(actions.drop_first(), action)
    }
}

/// How the provider offers to do `action`.
pub open spec fn offered_action(
    auth: Option<ServiceAuthDescriptorView>,
    action: ServiceAuthAction,
) -> Option<ServiceAuthActionDescriptorView> {
    match auth {
        Some(auth) => action_descriptor(auth.actions, action),
        None => None,
    }
}

/// The field for an input, before anything was entered.
pub open spec fn blank_field(
    descriptor: ServiceInputDescriptorView,
    index: int,
) -> ServiceAuthFieldStateView {
    match descriptor.kind {
        ServiceInputKind::Text | ServiceInputKind::FilePath => ServiceAuthFieldStateView::Text {
            descriptor,
            text: Seq::empty(),
            tab_index: (index + 1) as usize,
        },
        ServiceInputKind::Toggle => ServiceAuthFieldStateView::Toggle {
            descriptor,
            value: ToggleState::Unselected,
        },
    }
}

/// The fields for a list of inputs.
pub open spec fn blank_fields(
    descriptors: Seq<ServiceInputDescriptorView>,
) -> Seq<ServiceAuthFieldStateView> {
    Seq::new(descriptors.len(), |i: int| blank_field(descriptors[i], i))
}

/// The form of a provider, before it was opened.
pub open spec fn blank_form(provider: ServiceProviderDescriptorView) -> ServiceAuthFormStateView {
    let authenticate = offered_action(provider.auth, ServiceAuthAction::Authenticate);
    ServiceAuthFormStateView {
        authenticate_descriptor: authenticate,
        fields: match authenticate {
            Some(descriptor) => blank_fields(descriptor.inputs),
            None => Seq::empty(),
        },
        expanded: false,
        pending: false,
        error_message: None,
        logout_available: offered_action(provider.auth, ServiceAuthAction::Logout) is Some,
    }
}

/// The form, open.
pub open spec fn shown(form: ServiceAuthFormStateView) -> ServiceAuthFormStateView {
    ServiceAuthFormStateView { expanded: true, error_message: None, ..form }
}

/// The form, closed and at rest.
pub open spec fn closed_form(form: ServiceAuthFormStateView) -> ServiceAuthFormStateView {
    ServiceAuthFormStateView { expanded: false, pending: false, error_message: None, ..form }
}

/// The field after the box under `key` was set.
pub open spec fn toggled(
    field: ServiceAuthFieldStateView,
    key: Seq<char>,
    value: ToggleState,
) -> ServiceAuthFieldStateView {
    match field {
        ServiceAuthFieldStateView::Toggle { descriptor, .. } if descriptor.key == key => {
            ServiceAuthFieldStateView::Toggle { descriptor, value }
        },
        _ => field,
    }
}

/// The field after `text` was entered under `key`.
pub open spec fn entered(
    field: ServiceAuthFieldStateView,
    key: Seq<char>,
    text: Seq<char>,
) -> ServiceAuthFieldStateView {
    match field {
        ServiceAuthFieldStateView::Text { descriptor, tab_index, .. } if descriptor.key == key => {
            ServiceAuthFieldStateView::Text { descriptor, text, tab_index }
        },
        _ => field,
    }
}

/// The label of the first field that must be filled in and is not.
pub open spec fn first_missing(fields: Seq<ServiceAuthFieldStateView>) -> Option<Seq<char>>
    decreases fields.len(),
{
    if fields.len() == 0 {
        None
    } else {
        match fields[0] {
            ServiceAuthFieldStateView::Text { descriptor, text, .. } if descriptor.required
                && trimmed(text).len() == 0 => Some(descriptor.label),
            _ => first_missing(fields.drop_first()),
        }
    }
}

/// How a box is written into a request.
pub open spec fn toggle_text(value: ToggleState) -> Seq<char> {
    if value == ToggleState::Selected {
        "true"@
    } else {
        "false"@
    }
}

/// What the fields were filled in with. Empty text is left out; of two fields with one key the
/// later counts.
pub open spec fn collected_input(fields: Seq<ServiceAuthFieldStateView>) -> Map<
    Seq<char>,
    Seq<char>,
>
    decreases fields.len(),
{
    if fields.len() == 0 {
        Map::empty()
    } else {
        let before = collected_input(fields.drop_last());
        match fields.last() {
            ServiceAuthFieldStateView::Text { descriptor, text, .. } => {
                if trimmed(text).len() == 0 {
                    before
                } else {
                    before.insert(descriptor.key, trimmed(text))
                }
            },
            ServiceAuthFieldStateView::Toggle { descriptor, value } => before.insert(
                descriptor.key,
                toggle_text(value),
            ),
        }
    }
}

/// The request that a filled-in form makes, or why it makes none.
pub open spec fn authenticate_request(
    form: ServiceAuthFormStateView,
    provider_id: Seq<char>,
) -> Result<ServiceAuthActionRequestView, Seq<char>> {
    match form.authenticate_descriptor {
        None => Err("Authentication is not available for this provider"@),
        Some(descriptor) => match first_missing(form.fields) {
            Some(label) => Err(label + " is required"@),
            None => Ok(
                ServiceAuthActionRequestView {
                    provider_id,
                    action: descriptor.action,
                    input: collected_input(form.fields),
                },
            ),
        },
    }
}

/// The request to sign out, where the provider offers it.
pub open spec fn logout_request(
    form: ServiceAuthFormStateView,
    provider_id: Seq<char>,
) -> Option<ServiceAuthActionRequestView> {
    if form.logout_available {
        Some(
            ServiceAuthActionRequestView {
                provider_id,
                action: ServiceAuthAction::Logout,
                input: Map::empty(),
            },
        )
    } else {
        None
    }
}

fn find_action(provider: &ServiceProviderDescriptor, action: ServiceAuthAction) -> (r: Option<
    ServiceAuthActionDescriptor,
>)
    ensures
        r.deep_view() == offered_action(provider.auth.deep_view(), action),
{
    match &provider.auth {
        Some(auth) => {
            let mut i: usize = 0;
            let ghost all = auth.actions.deep_view();
            assert(all.skip(0) =~= all);
            while i < auth.actions.len()
                invariant
                    i <= auth.actions@.len(),
                    provider.auth == Some(*auth),
                    all == auth.actions.deep_view(),
                    action_descriptor(all, action) == action_descriptor(all.skip(i as int), action),
                decreases auth.actions@.len() - i,
            {
                if auth.actions[i].action == action {
                    return Some(auth.actions[i].clone());
                }
                assert(all.skip(i as int).drop_first() =~= all.skip(i + 1));
                i = i + 1;
            }
            None
        },
        None => None,
    }
}

/// The fields for a list of inputs.
pub fn create_fields(descriptors: &Vec<ServiceInputDescriptor>) -> (r: Vec<ServiceAuthFieldState>)
    ensures
        r.deep_view() == blank_fields(descriptors.deep_view()),
{
    let mut fields: Vec<ServiceAuthFieldState> = Vec::new();
    let mut i: usize = 0;
    while i < descriptors.len()
        invariant
            i <= descriptors@.len(),
            fields@.len() == i,
            forall|j: int|
                0 <= j < i ==> (#[trigger] fields@[j]).deep_view() == blank_field(
                    descriptors@[j].deep_view(),
                    j,
                ),
        decreases descriptors@.len() - i,
    {
        let descriptor = &descriptors[i];
        let field = match descriptor.kind {
            ServiceInputKind::Text | ServiceInputKind::FilePath => ServiceAuthFieldState::Text {
                descriptor: descriptor.clone(),
                text: String::new(),
                tab_index: i + 1,
            },
            ServiceInputKind::Toggle => ServiceAuthFieldState::Toggle {
                descriptor: descriptor.clone(),
                value: ToggleState::Unselected,
            },
        };
        assert(field.deep_view() == blank_field(descriptor.deep_view(), i as int));
        fields.push(field);
        i = i + 1;
    }
    assert(fields.deep_view() =~= blank_fields(descriptors.deep_view()));
    fields
}

impl ServiceAuthFormState {
    /// The form of a provider, before it was opened.
    pub fn new(provider: &ServiceProviderDescriptor) -> (r: Self)
        ensures
            r.deep_view() == blank_form(provider.deep_view()),
    {
        let authenticate_descriptor = find_action(provider, ServiceAuthAction::Authenticate);
        let logout_available = find_action(provider, ServiceAuthAction::Logout).is_some();
        let fields = match &authenticate_descriptor {
            Some(descriptor) => create_fields(&descriptor.inputs),
            None => Vec::new(),
        };
        assert(authenticate_descriptor is None ==> fields.deep_view() =~= Seq::empty());
        ServiceAuthFormState {
            authenticate_descriptor,
            fields,
            expanded: false,
            pending: false,
            error_message: None,
            logout_available,
        }
    }

    /// Opens the form.
    pub fn show(&mut self)
        ensures
            final(self).deep_view() == shown(old(self).deep_view()),
    {
        self.expanded = true;
        self.error_message = None;
    }

    /// Closes the form after the user has signed in or out.
    pub fn finish_success(&mut self)
        ensures
            final(self).deep_view() == closed_form(old(self).deep_view()),
    {
        self.expanded = false;
        self.pending = false;
        self.error_message = None;
    }

    /// Closes the form without signing in.
    pub fn cancel(&mut self)
        ensures
            final(self).deep_view() == closed_form(old(self).deep_view()),
    {
        self.expanded = false;
        self.pending = false;
        self.error_message = None;
    }

    /// Marks whether a request is under way.
    pub fn set_pending(&mut self, pending: bool)
        ensures
            final(self).deep_view() == (ServiceAuthFormStateView {
                pending,
                ..old(self).deep_view()
            }),
    {
        self.pending = pending;
    }

    /// Shows what went wrong.
    pub fn set_error(&mut self, error: String)
        ensures
            final(self).deep_view() == (ServiceAuthFormStateView {
                error_message: Some(error@),
                ..old(self).deep_view()
            }),
    {
        self.error_message = Some(error);
    }

    /// Sets the boxes under `key`.
    pub fn set_toggle(&mut self, key: &str, value: ToggleState)
        ensures
            final(self).deep_view() == (ServiceAuthFormStateView {
                fields: old(self).deep_view().fields.map_values(
                    |field: ServiceAuthFieldStateView| toggled(field, key@, value),
                ),
                ..old(self).deep_view()
            }),
    {
        let ghost before = self.deep_view();
        let mut fields: Vec<ServiceAuthFieldState> = Vec::new();
        let mut i: usize = 0;
        while i < self.fields.len()
            invariant
                i <= self.fields@.len(),
                fields@.len() == i,
                forall|j: int|
                    0 <= j < i ==> (#[trigger] fields@[j]).deep_view() == toggled(
                        self.fields@[j].deep_view(),
                        key@,
                        value,
                    ),
            decreases self.fields@.len() - i,
        {
            let field = match &self.fields[i] {
                ServiceAuthFieldState::Toggle { descriptor, value: current } => {
                    ServiceAuthFieldState::Toggle {
                        descriptor: descriptor.clone(),
                        value: if str_eq(descriptor.key.as_str(), key) {
                            value
                        } else {
                            *current
                        },
                    }
                },
                ServiceAuthFieldState::Text { .. } => self.fields[i].clone(),
            };
            fields.push(field);
            i = i + 1;
        }
        assert(fields.deep_view() =~= before.fields.map_values(
            |field: ServiceAuthFieldStateView| toggled(field, key@, value),
        ));
        self.fields = fields;
    }

    /// Enters `text` into the fields under `key`.
    pub fn set_text(&mut self, key: &str, text: &str)
        ensures
            final(self).deep_view() == (ServiceAuthFormStateView {
                fields: old(self).deep_view().fields.map_values(
                    |field: ServiceAuthFieldStateView| entered(field, key@, text@),
                ),
                ..old(self).deep_view()
            }),
    {
        let ghost before = self.deep_view();
        let mut fields: Vec<ServiceAuthFieldState> = Vec::new();
        let mut i: usize = 0;
        while i < self.fields.len()
            invariant
                i <= self.fields@.len(),
                fields@.len() == i,
                forall|j: int|
                    0 <= j < i ==> (#[trigger] fields@[j]).deep_view() == entered(
                        self.fields@[j].deep_view(),
                        key@,
                        text@,
                    ),
            decreases self.fields@.len() - i,
        {
            let field = match &self.fields[i] {
                ServiceAuthFieldState::Text { descriptor, text: current, tab_index } => {
                    ServiceAuthFieldState::Text {
                        descriptor: descriptor.clone(),
                        text: if str_eq(descriptor.key.as_str(), key) {
                            text.to_owned()
                        } else {
                            current.clone()
                        },
                        tab_index: *tab_index,
                    }
                },
                ServiceAuthFieldState::Toggle { .. } => self.fields[i].clone(),
            };
            fields.push(field);
            i = i + 1;
        }
        assert(fields.deep_view() =~= before.fields.map_values(
            |field: ServiceAuthFieldStateView| entered(field, key@, text@),
        ));
        self.fields = fields;
    }

    /// Takes over what stands in the editor of the field at `index`.
    pub fn edit_text(&mut self, index: usize, text: String)
        ensures
            final(self).deep_view() == (ServiceAuthFormStateView {
                fields: edited_fields(old(self).deep_view().fields, index as int, text@),
                ..old(self).deep_view()
            }),
    {
        let ghost before = self.deep_view();
        if index < self.fields.len() {
            if let ServiceAuthFieldState::Text { descriptor, tab_index, .. } = &self.fields[index] {
                let field = ServiceAuthFieldState::Text {
                    descriptor: descriptor.clone(),
                    text,
                    tab_index: *tab_index,
                };
                self.fields.set(index, field);
                assert(self.fields.deep_view() =~= edited_fields(
                    before.fields,
                    index as int,
                    text@,
                ));
            }
        }
    }

    /// The request that the form makes, or why it makes none.
    pub fn build_authenticate_request(&self, provider_id: &str) -> (r: Result<
        ServiceAuthActionRequest,
        String,
    >)
        ensures
            match r {
                Ok(request) => authenticate_request(self.deep_view(), provider_id@) == Ok::<
                    ServiceAuthActionRequestView,
                    Seq<char>,
                >(request.deep_view()),
                Err(message) => authenticate_request(self.deep_view(), provider_id@) == Err::<
                    ServiceAuthActionRequestView,
                    Seq<char>,
                >(message@),
            },
    {
        let action = match &self.authenticate_descriptor {
            Some(descriptor) => descriptor.action,
            None => {
                return Err("Authentication is not available for this provider".to_owned());
            },
        };
        let mut input = ServiceInput::new();
        let mut i: usize = 0;
        let ghost all = self.fields.deep_view();
        assert(all.skip(0) =~= all);
        while i < self.fields.len()
            invariant
                i <= self.fields@.len(),
                all == self.fields.deep_view(),
                self.authenticate_descriptor is Some,
                first_missing(all) == first_missing(all.skip(i as int)),
                input.deep_view() == collected_input(all.take(i as int)),
            decreases self.fields@.len() - i,
        {
            assert(all.skip(i as int).drop_first() =~= all.skip(i + 1));
            assert(all.take(i + 1).drop_last() =~= all.take(i as int));
            assert(all.take(i + 1).last() == all[i as int]);
            match &self.fields[i] {
                ServiceAuthFieldState::Text { descriptor, text, .. } => {
                    let value = trim(text.as_str());
                    if value.as_str().is_empty() {
                        if descriptor.required {
                            let mut message = descriptor.label.clone();
                            message.append(" is required");
                            return Err(message);
                        }
                    } else {
                        input = input.with(descriptor.key.as_str(), value);
                    }
                },
                ServiceAuthFieldState::Toggle { descriptor, value } => {
                    let text = if value.selected() {
                        "true".to_owned()
                    } else {
                        "false".to_owned()
                    };
                    input = input.with(descriptor.key.as_str(), text);
                },
            }
            i = i + 1;
        }
        assert(all.take(i as int) =~= all);
        Ok(ServiceAuthActionRequest { provider_id: provider_id.to_owned(), action, input })
    }

    /// The request to sign out, where the provider offers it.
    pub fn build_logout_request(&self, provider_id: &str) -> (r: Option<ServiceAuthActionRequest>)
        ensures
            r.deep_view() == logout_request(self.deep_view(), provider_id@),
    {
        if self.logout_available {
            Some(
                ServiceAuthActionRequest {
                    provider_id: provider_id.to_owned(),
                    action: ServiceAuthAction::Logout,
                    input: ServiceInput::new(),
                },
            )
        } else {
            None
        }
    }
}

/// The fields after `text` was typed into the one at `index`.
pub open spec fn edited_fields(
    fields: Seq<ServiceAuthFieldStateView>,
    index: int,
    text: Seq<char>,
) -> Seq<ServiceAuthFieldStateView> {
    if 0 <= index < fields.len() {
        match fields[index] {
            ServiceAuthFieldStateView::Text { descriptor, tab_index, .. } => fields.update(
                index,
                ServiceAuthFieldStateView::Text { descriptor, text, tab_index },
            ),
            ServiceAuthFieldStateView::Toggle { .. } => fields,
        }
    } else {
        fields
    }
}

/// A form makes a request exactly where the provider offers to sign in and every field that must
/// be filled in is.
pub proof fn lemma_authenticate_request_owed(
    form: ServiceAuthFormStateView,
    provider_id: Seq<char>,
)
    ensures
        authenticate_request(form, provider_id) is Ok <==> form.authenticate_descriptor is Some && (
        forall|i: int| 0 <= i < form.fields.len() ==> is_filled_in(#[trigger] form.fields[i])),
{
    lemma_first_missing(form.fields);
}

/// The field holds text, or it need not.
pub open spec fn is_filled_in(field: ServiceAuthFieldStateView) -> bool {
    match field {
        ServiceAuthFieldStateView::Text { descriptor, text, .. } => descriptor.required
            ==> trimmed(text).len() > 0,
        ServiceAuthFieldStateView::Toggle { .. } => true,
    }
}

proof fn lemma_first_missing(fields: Seq<ServiceAuthFieldStateView>)
    ensures
        first_missing(fields) is None <==> (forall|i: int|
            0 <= i < fields.len() ==> is_filled_in(#[trigger] fields[i])),
    decreases fields.len(),
{
    if fields.len() > 0 {
        let rest = fields.drop_first();
        lemma_first_missing(rest);
        if is_filled_in(fields[0]) && first_missing(rest) is None {
            assert forall|i: int| 0 <= i < fields.len() implies is_filled_in(
                #[trigger] fields[i],
            ) by {
                if i > 0 {
                    assert(fields[i] == rest[i - 1]);
                }
            }
        } else if is_filled_in(fields[0]) {
            let i = choose|i: int| 0 <= i < rest.len() && !is_filled_in(#[trigger] rest[i]);
            assert(fields[i + 1] == rest[i]);
        }
    }
}

/// A request carries no empty text: what is entered is carried without the whitespace around it.
pub proof fn lemma_no_blank_text_is_sent(fields: Seq<ServiceAuthFieldStateView>, key: Seq<char>)
    requires
        collected_input(fields).contains_key(key),
    ensures
        collected_input(fields)[key].len() > 0,
    decreases fields.len(),
{
    reveal_strlit("true");
    reveal_strlit("false");
    if fields.len() > 0 && collected_input(fields.drop_last()).contains_key(key) {
        lemma_no_blank_text_is_sent(fields.drop_last(), key);
    }
}

/// The text of every field that is filled in reaches the request, unless a later field goes by
/// the same key.
pub proof fn lemma_entered_text_is_sent(fields: Seq<ServiceAuthFieldStateView>, index: int)
    requires
        0 <= index < fields.len(),
        fields[index] matches ServiceAuthFieldStateView::Text { text, .. } && trimmed(text).len()
            > 0,
        forall|j: int|
            index < j < fields.len() ==> key_of(#[trigger] fields[j]) != key_of(fields[index]),
    ensures
        collected_input(fields).contains_key(key_of(fields[index])),
        fields[index] matches ServiceAuthFieldStateView::Text { text, .. }
            && collected_input(fields)[key_of(fields[index])] == trimmed(text),
    decreases fields.len(),
{
    if index < fields.len() - 1 {
        let init = fields.drop_last();
        assert(init[index] == fields[index]);
        assert(key_of(fields[fields.len() - 1]) != key_of(fields[index]));
        assert forall|j: int| index < j < init.len() implies key_of(#[trigger] init[j]) != key_of(
            init[index],
        ) by {
            assert(fields[j] == init[j]);
        }
        lemma_entered_text_is_sent(init, index);
    }
}

/// The key of a field.
pub open spec fn key_of(field: ServiceAuthFieldStateView) -> Seq<char> {
    match field {
        ServiceAuthFieldStateView::Text { descriptor, .. } => descriptor.key,
        ServiceAuthFieldStateView::Toggle { descriptor, .. } => descriptor.key,
    }
}

/// Setting a box leaves every text field as it is, and every box under another key.
pub proof fn lemma_toggle_touches_only_its_key(
    field: ServiceAuthFieldStateView,
    key: Seq<char>,
    value: ToggleState,
)
    ensures
        field is Text ==> toggled(field, key, value) == field,
        key_of(field) != key ==> toggled(field, key, value) == field,
        key_of(toggled(field, key, value)) == key_of(field),
        field is Toggle && key_of(field) == key ==> (toggled(field, key, value) matches
            ServiceAuthFieldStateView::Toggle { value: set, .. } && set == value),
{
}

/// Opening a form and closing it again leaves what was entered, and a form that was closed and at
/// rest as it was.
pub proof fn lemma_show_then_cancel(form: ServiceAuthFormStateView)
    ensures
        closed_form(shown(form)).fields == form.fields,
        closed_form(shown(form)) == closed_form(form),
        closed_form(closed_form(form)) == closed_form(form),
{
}

} // verus!
