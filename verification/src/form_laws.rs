//! What a form to sign in starts as, takes in and sends, said of its fields.

use crate::hub::{ServiceAuthAction, ServiceAuthActionDescriptorView, ServiceInputKind};
use crate::hub::{ServiceInputDescriptorView, ServiceProviderDescriptorView};
use crate::service_auth::{action_descriptor, authenticate_request, blank_form, closed_form};
use crate::service_auth::{collected_input, edited_fields, entered, first_missing, logout_request};
use crate::service_auth::{shown, toggled, ServiceAuthFieldStateView, ServiceAuthFormStateView};
use crate::service_auth::ToggleState;
use crate::text::{is_blank, lemma_trimmed_empty_iff_blank, trimmed};
use vstd::prelude::*;

verus! {

/// The description at `k` is the first that does `action`.
pub open spec fn does_at(
    actions: Seq<ServiceAuthActionDescriptorView>,
    action: ServiceAuthAction,
    k: int,
) -> bool {
    &&& 0 <= k < actions.len()
    &&& actions[k].action == action
    &&& forall|j: int| 0 <= j < k ==> (#[trigger] actions[j]).action != action
}

/// None of the descriptions does `action`.
pub open spec fn does_nowhere(
    actions: Seq<ServiceAuthActionDescriptorView>,
    action: ServiceAuthAction,
) -> bool {
    forall|j: int| 0 <= j < actions.len() ==> (#[trigger] actions[j]).action != action
}

proof fn lemma_action_is_found(
    actions: Seq<ServiceAuthActionDescriptorView>,
    action: ServiceAuthAction,
    k: int,
)
    ensures
        does_at(actions, action, k) ==> action_descriptor(actions, action) == Some(actions[k]),
        does_nowhere(actions, action) ==> action_descriptor(actions, action) is None,
    decreases actions.len(),
{
    if actions.len() > 0 {
        let rest = actions.drop_first();
        assert forall|j: int| 0 <= j < rest.len() implies rest[j] == #[trigger] actions[j + 1] by {}
        if does_at(actions, action, k) && k > 0 {
            assert(actions[0].action != action);
            assert forall|j: int| 0 <= j < k - 1 implies (#[trigger] rest[j]).action != action by {
                assert(rest[j] == actions[j + 1]);
            }
            assert(does_at(rest, action, k - 1));
            lemma_action_is_found(rest, action, k - 1);
        } else if does_nowhere(actions, action) {
            assert(actions[0].action != action);
            assert forall|j: int| 0 <= j < rest.len() implies (#[trigger] rest[j]).action
                != action by {
                assert(rest[j] == actions[j + 1]);
            }
            lemma_action_is_found(rest, action, 0);
        }
    }
}

/// A form starts closed and at rest, with a field for each input that the provider wants of a user
/// who signs in: an empty line of text, or a box that is not ticked. The fields of text are reached
/// by the tab key in the order of the inputs.
pub proof fn lemma_form_starts_blank(
    provider: ServiceProviderDescriptorView,
    k: int,
    i: int,
)
    requires
        provider.auth is Some,
        does_at(provider.auth.unwrap().actions, ServiceAuthAction::Authenticate, k),
    ensures
        ({
            let form = blank_form(provider);
            let descriptor = provider.auth.unwrap().actions[k];
            &&& form.authenticate_descriptor == Some(descriptor)
            &&& !form.expanded && !form.pending && form.error_message is None
            &&& form.fields.len() == descriptor.inputs.len()
            &&& 0 <= i < descriptor.inputs.len() && i < usize::MAX ==> (match form.fields[i] {
                ServiceAuthFieldStateView::Text { descriptor: input, text, tab_index } => input
                    == descriptor.inputs[i] && input.kind != ServiceInputKind::Toggle && text.len()
                    == 0 && tab_index == i + 1,
                ServiceAuthFieldStateView::Toggle { descriptor: input, value } => input
                    == descriptor.inputs[i] && input.kind == ServiceInputKind::Toggle && value
                    == ToggleState::Unselected,
            })
        }),
{
    lemma_action_is_found(provider.auth.unwrap().actions, ServiceAuthAction::Authenticate, k);
}

/// A provider that offers no way to sign in has a form without fields, and one can sign out exactly
/// where the provider offers it.
pub proof fn lemma_form_offers_what_provider_offers(
    provider: ServiceProviderDescriptorView,
    k: int,
)
    ensures
        provider.auth is None ==> blank_form(provider).authenticate_descriptor is None
            && blank_form(provider).fields.len() == 0 && !blank_form(provider).logout_available,
        provider.auth matches Some(auth) ==> (does_nowhere(
            auth.actions,
            ServiceAuthAction::Authenticate,
        ) ==> blank_form(provider).authenticate_descriptor is None && blank_form(
            provider,
        ).fields.len() == 0),
        provider.auth matches Some(auth) ==> (does_at(auth.actions, ServiceAuthAction::Logout, k)
            ==> blank_form(provider).logout_available),
        provider.auth matches Some(auth) ==> (does_nowhere(auth.actions, ServiceAuthAction::Logout)
            ==> !blank_form(provider).logout_available),
        !blank_form(provider).expanded && !blank_form(provider).pending && blank_form(
            provider,
        ).error_message is None,
{
    if let Some(auth) = provider.auth {
        lemma_action_is_found(auth.actions, ServiceAuthAction::Authenticate, k);
        lemma_action_is_found(auth.actions, ServiceAuthAction::Logout, k);
    }
}

/// Opening a form and closing it change whether it is open and take back the error; closing it also
/// ends the wait. What was entered and what is offered stay.
pub proof fn lemma_form_opens_and_closes(form: ServiceAuthFormStateView)
    ensures
        ({
            let open = shown(form);
            let closed = closed_form(form);
            &&& open.expanded && !closed.expanded
            &&& open.error_message is None && closed.error_message is None
            &&& open.pending == form.pending && !closed.pending
            &&& open.fields == form.fields && closed.fields == form.fields
            &&& open.authenticate_descriptor == form.authenticate_descriptor
                && closed.authenticate_descriptor == form.authenticate_descriptor
            &&& open.logout_available == form.logout_available && closed.logout_available
                == form.logout_available
        }),
{
}

/// Text goes into the line that has the key, and a tick into the box that has it; what else there is
/// to a field stays.
pub proof fn lemma_field_takes_what_is_meant_for_it(
    descriptor: ServiceInputDescriptorView,
    old_text: Seq<char>,
    tab_index: usize,
    old_value: ToggleState,
    key: Seq<char>,
    text: Seq<char>,
    value: ToggleState,
)
    ensures
        ({
            let line = ServiceAuthFieldStateView::Text { descriptor, text: old_text, tab_index };
            let tick = ServiceAuthFieldStateView::Toggle { descriptor, value: old_value };
            &&& descriptor.key == key ==> entered(line, key, text) == (
            ServiceAuthFieldStateView::Text { descriptor, text, tab_index })
            &&& descriptor.key != key ==> entered(line, key, text) == line
            &&& entered(tick, key, text) == tick
            &&& descriptor.key == key ==> toggled(tick, key, value) == (
            ServiceAuthFieldStateView::Toggle { descriptor, value })
            &&& descriptor.key != key ==> toggled(tick, key, value) == tick
            &&& toggled(line, key, value) == line
        }),
{
}

/// Typing changes the line that is typed into, and no other field; there is no typing into a box.
pub proof fn lemma_typing_changes_one_line(
    fields: Seq<ServiceAuthFieldStateView>,
    index: int,
    text: Seq<char>,
    j: int,
)
    requires
        0 <= j < fields.len(),
    ensures
        edited_fields(fields, index, text).len() == fields.len(),
        j != index ==> edited_fields(fields, index, text)[j] == fields[j],
        fields[j] is Toggle ==> edited_fields(fields, index, text)[j] == fields[j],
        j == index ==> (fields[j] matches ServiceAuthFieldStateView::Text {
            descriptor,
            tab_index,
            ..
        } ==> edited_fields(fields, index, text)[j] == (ServiceAuthFieldStateView::Text {
            descriptor,
            text,
            tab_index,
        })),
{
}

/// The field must be filled in and holds nothing but whitespace.
pub open spec fn is_missing(field: ServiceAuthFieldStateView) -> bool {
    field matches ServiceAuthFieldStateView::Text { descriptor, text, .. } && descriptor.required
        && is_blank(text)
}

/// What a field goes by.
pub open spec fn goes_by(field: ServiceAuthFieldStateView) -> ServiceInputDescriptorView {
    match field {
        ServiceAuthFieldStateView::Text { descriptor, .. } => descriptor,
        ServiceAuthFieldStateView::Toggle { descriptor, .. } => descriptor,
    }
}

proof fn lemma_first_missing(fields: Seq<ServiceAuthFieldStateView>, k: int)
    requires
        0 <= k <= fields.len(),
        forall|j: int| 0 <= j < k ==> !is_missing(#[trigger] fields[j]),
        k < fields.len() ==> is_missing(fields[k]),
    ensures
        k < fields.len() ==> first_missing(fields) == Some(goes_by(fields[k]).label),
        k == fields.len() ==> first_missing(fields) is None,
    decreases fields.len(),
{
    if fields.len() > 0 {
        match fields[0] {
            ServiceAuthFieldStateView::Text { text, .. } => lemma_trimmed_empty_iff_blank(text),
            _ => {},
        }
        if k > 0 {
            let rest = fields.drop_first();
            assert(!is_missing(fields[0]));
            assert forall|j: int| 0 <= j < k - 1 implies !is_missing(#[trigger] rest[j]) by {
                assert(rest[j] == fields[j + 1]);
            }
            lemma_first_missing(rest, k - 1);
        }
    }
}

/// A form that lacks something is not sent, and the user is told the first field that is missing. A
/// form that lacks nothing is sent to the provider, to do what it offers.
pub proof fn lemma_form_is_sent_when_complete(
    form: ServiceAuthFormStateView,
    provider_id: Seq<char>,
    k: int,
)
    requires
        0 <= k <= form.fields.len(),
        forall|j: int| 0 <= j < k ==> !is_missing(#[trigger] form.fields[j]),
        k < form.fields.len() ==> is_missing(form.fields[k]),
    ensures
        form.authenticate_descriptor is None ==> (authenticate_request(
            form,
            provider_id,
        ) matches Err(message) && message == "Authentication is not available for this provider"@),
        form.authenticate_descriptor is Some && k < form.fields.len() ==> (authenticate_request(
            form,
            provider_id,
        ) matches Err(message) && message == goes_by(form.fields[k]).label + " is required"@),
        form.authenticate_descriptor matches Some(descriptor) ==> (k == form.fields.len() ==> (
        authenticate_request(form, provider_id) matches Ok(request) && request.provider_id
            == provider_id && request.action == descriptor.action && request.input
            == collected_input(form.fields))),
{
    lemma_first_missing(form.fields, k);
}

/// The field says something: it is a box, or text that is not blank.
pub open spec fn says_something(field: ServiceAuthFieldStateView) -> bool {
    field matches ServiceAuthFieldStateView::Text { text, .. } ==> !is_blank(text)
}

/// What a field says: its text without the whitespace around it, or whether its box is ticked.
pub open spec fn says(field: ServiceAuthFieldStateView) -> Seq<char> {
    match field {
        ServiceAuthFieldStateView::Text { text, .. } => trimmed(text),
        ServiceAuthFieldStateView::Toggle { value, .. } => if value == ToggleState::Selected {
            "true"@
        } else {
            "false"@
        },
    }
}

/// What every field says is sent under its key, unless a later one says something under the same
/// key.
pub proof fn lemma_what_is_said_is_sent(fields: Seq<ServiceAuthFieldStateView>, i: int)
    requires
        0 <= i < fields.len(),
        says_something(fields[i]),
        forall|j: int|
            i < j < fields.len() && says_something(#[trigger] fields[j]) ==> goes_by(fields[j]).key
                != goes_by(fields[i]).key,
    ensures
        collected_input(fields).contains_key(goes_by(fields[i]).key),
        collected_input(fields)[goes_by(fields[i]).key] == says(fields[i]),
    decreases fields.len(),
{
    match fields.last() {
        ServiceAuthFieldStateView::Text { text, .. } => lemma_trimmed_empty_iff_blank(text),
        _ => {},
    }
    if i < fields.len() - 1 {
        let rest = fields.drop_last();
        assert forall|j: int| i < j < rest.len() && says_something(#[trigger] rest[j]) implies
            goes_by(rest[j]).key != goes_by(rest[i]).key by {
            assert(rest[j] == fields[j]);
        }
        lemma_what_is_said_is_sent(rest, i);
        let n = fields.len() - 1;
        assert(fields[n] == fields.last());
        assert(says_something(fields[n]) ==> goes_by(fields[n]).key != goes_by(fields[i]).key);
    }
}

/// Nothing is sent but what some field says.
pub proof fn lemma_nothing_else_is_sent(fields: Seq<ServiceAuthFieldStateView>, key: Seq<char>)
    ensures
        collected_input(fields).contains_key(key) ==> exists|i: int|
            0 <= i < fields.len() && says_something(#[trigger] fields[i]) && goes_by(fields[i]).key
                == key && collected_input(fields)[key] == says(fields[i]),
    decreases fields.len(),
{
    if fields.len() > 0 && collected_input(fields).contains_key(key) {
        let rest = fields.drop_last();
        let n = fields.len() - 1;
        match fields.last() {
            ServiceAuthFieldStateView::Text { text, .. } => lemma_trimmed_empty_iff_blank(text),
            _ => {},
        }
        if says_something(fields[n]) && goes_by(fields[n]).key == key {
            assert(collected_input(fields)[key] == says(fields[n]));
        } else {
            lemma_nothing_else_is_sent(rest, key);
            let i = choose|i: int|
                0 <= i < rest.len() && says_something(#[trigger] rest[i]) && goes_by(rest[i]).key
                    == key && collected_input(rest)[key] == says(rest[i]);
            assert(fields[i] == rest[i]);
            assert(says_something(fields[i]));
        }
    }
}

/// Signing out is asked of the provider, with nothing to say, exactly where it is offered.
pub proof fn lemma_sign_out_is_asked_for(form: ServiceAuthFormStateView, provider_id: Seq<char>)
    ensures
        form.logout_available ==> (logout_request(form, provider_id) matches Some(request)
            && request.provider_id == provider_id && request.action == ServiceAuthAction::Logout
            && request.input == Map::<Seq<char>, Seq<char>>::empty()),
        !form.logout_available ==> logout_request(form, provider_id) is None,
{
}

} // verus!
