//! Whether the user is signed in to App Store Connect.

use crate::asc_apps::APP_STORE_CONNECT_PROVIDER_ID;
use crate::hub::{ServiceOperationRequest, ServiceOperationRequestView};
use crate::input::ServiceInput;
use crate::text::{eq_ignore_ascii_case, lowercased, opt_clone, strings_clone, trim, trimmed};
use vstd::prelude::*;
use vstd::string::*;

verus! {

/// Whether the user is signed in, in words.
#[derive(Debug, PartialEq, Eq)]
pub struct AscAuthSummary {
    pub headline: String,
    pub detail: String,
    pub warnings: Vec<String>,
    pub healthy: bool,
    pub authenticated: bool,
}

/// The value of an [`AscAuthSummary`].
#[verifier::ext_equal]
pub struct AscAuthSummaryView {
    pub headline: Seq<char>,
    pub detail: Seq<char>,
    pub warnings: Seq<Seq<char>>,
    pub healthy: bool,
    pub authenticated: bool,
}

impl DeepView for AscAuthSummary {
    type V = AscAuthSummaryView;

    open spec fn deep_view(&self) -> AscAuthSummaryView {
        AscAuthSummaryView {
            headline: self.headline@,
            detail: self.detail@,
            warnings: self.warnings.deep_view(),
            healthy: self.healthy,
            authenticated: self.authenticated,
        }
    }
}

impl Clone for AscAuthSummary {
    fn clone(&self) -> (r: Self)
        ensures
            r.deep_view() == self.deep_view(),
    {
        AscAuthSummary {
            headline: self.headline.clone(),
            detail: self.detail.clone(),
            warnings: strings_clone(&self.warnings),
            healthy: self.healthy,
            authenticated: self.authenticated,
        }
    }
}

/// A stored credential.
#[derive(Debug, PartialEq, Eq)]
pub struct AscCredential {
    pub name: String,
    pub is_default: bool,
    pub validation: Option<String>,
    pub validation_detail: Option<String>,
    pub validation_error: Option<String>,
}

/// The value of an [`AscCredential`].
#[verifier::ext_equal]
pub struct AscCredentialView {
    pub name: Seq<char>,
    pub is_default: bool,
    pub validation: Option<Seq<char>>,
    pub validation_detail: Option<Seq<char>>,
    pub validation_error: Option<Seq<char>>,
}

impl DeepView for AscCredential {
    type V = AscCredentialView;

    open spec fn deep_view(&self) -> AscCredentialView {
        AscCredentialView {
            name: self.name@,
            is_default: self.is_default,
            validation: self.validation.deep_view(),
            validation_detail: self.validation_detail.deep_view(),
            validation_error: self.validation_error.deep_view(),
        }
    }
}

impl Clone for AscCredential {
    fn clone(&self) -> (r: Self)
        ensures
            r.deep_view() == self.deep_view(),
    {
        AscCredential {
            name: self.name.clone(),
            is_default: self.is_default,
            validation: opt_clone(&self.validation),
            validation_detail: opt_clone(&self.validation_detail),
            validation_error: opt_clone(&self.validation_error),
        }
    }
}

/// The credentials that are stored, as App Store Connect's command line reports them.
#[derive(Debug, PartialEq, Eq)]
pub struct AscAuthStatusResponse {
    pub storage_backend: String,
    pub warnings: Option<Vec<String>>,
    pub credentials: Vec<AscCredential>,
    pub environment_note: Option<String>,
}

/// The value of an [`AscAuthStatusResponse`].
#[verifier::ext_equal]
pub struct AscAuthStatusResponseView {
    pub storage_backend: Seq<char>,
    pub warnings: Option<Seq<Seq<char>>>,
    pub credentials: Seq<AscCredentialView>,
    pub environment_note: Option<Seq<char>>,
}

impl DeepView for AscAuthStatusResponse {
    type V = AscAuthStatusResponseView;

    open spec fn deep_view(&self) -> AscAuthStatusResponseView {
        AscAuthStatusResponseView {
            storage_backend: self.storage_backend@,
            warnings: self.warnings.deep_view(),
            credentials: self.credentials.deep_view(),
            environment_note: self.environment_note.deep_view(),
        }
    }
}

/// What is asked for to learn whether the user is signed in.
pub open spec fn auth_status_request_of() -> ServiceOperationRequestView {
    ServiceOperationRequestView {
        provider_id: APP_STORE_CONNECT_PROVIDER_ID@,
        operation: "auth_status"@,
        resource: None,
        artifact: None,
        input: Map::empty(),
    }
}

/// What is asked for to learn whether the user is signed in.
pub fn auth_status_request() -> (r: ServiceOperationRequest)
    ensures
        r.deep_view() == auth_status_request_of(),
{
    ServiceOperationRequest {
        provider_id: APP_STORE_CONNECT_PROVIDER_ID.to_owned(),
        operation: "auth_status".to_owned(),
        resource: None,
        artifact: None,
        input: ServiceInput::new(),
    }
}

/// The first credential that is marked as the default.
pub open spec fn marked_default(credentials: Seq<AscCredentialView>) -> Option<AscCredentialView>
    decreases credentials.len(),
{
    if credentials.len() == 0 {
        None
    } else if credentials[0].is_default {
        Some(credentials[0])
    } else {
        marked_default(credentials.drop_first())
    }
}

/// The credential that is used: the one marked as the default, or else the first.
pub open spec fn default_credential(credentials: Seq<AscCredentialView>) -> Option<
    AscCredentialView,
> {
    match marked_default(credentials) {
        Some(credential) => Some(credential),
        None => if credentials.len() == 0 {
            None
        } else {
            Some(credentials[0])
        },
    }
}

/// The warnings of a report, with the note on the environment where it says anything.
pub open spec fn warnings_of(response: AscAuthStatusResponseView) -> Seq<Seq<char>> {
    let warnings = match response.warnings {
        Some(warnings) => warnings,
        None => Seq::empty(),
    };
    match response.environment_note {
        Some(note) => if trimmed(note).len() > 0 {
            warnings.push(note)
        } else {
            warnings
        },
        None => warnings,
    }
}

/// How the validation of a credential came out.
pub open spec fn validation_of(credential: AscCredentialView) -> Seq<char> {
    match credential.validation {
        Some(validation) => validation,
        None => "unknown"@,
    }
}

/// The credential was tried and works.
pub open spec fn credential_works(credential: AscCredentialView) -> bool {
    lowercased(validation_of(credential)) == lowercased("works"@)
}

/// What is said of a credential: what went wrong, or else how it was validated, or else its name.
pub open spec fn credential_detail(
    credential: AscCredentialView,
    storage_backend: Seq<char>,
) -> Seq<char> {
    match credential.validation_error {
        Some(error) => error,
        None => match credential.validation_detail {
            Some(detail) => detail,
            None => "Default credential: "@ + credential.name + " in "@ + storage_backend,
        },
    }
}

/// Whether the user is signed in, in words.
pub open spec fn auth_summary_of(response: AscAuthStatusResponseView) -> AscAuthSummaryView {
    match default_credential(response.credentials) {
        None => AscAuthSummaryView {
            headline: "Not authenticated"@,
            detail: "No App Store Connect credentials are stored in "@ + response.storage_backend
                + "."@,
            warnings: warnings_of(response),
            healthy: false,
            authenticated: false,
        },
        Some(credential) => AscAuthSummaryView {
            headline: if credential_works(credential) {
                "Authentication validated"@
            } else {
                "Authentication status: "@ + validation_of(credential)
            },
            detail: credential_detail(credential, response.storage_backend),
            warnings: warnings_of(response),
            healthy: credential_works(credential),
            authenticated: true,
        },
    }
}

fn default_credential_index(credentials: &Vec<AscCredential>) -> (r: Option<usize>)
    ensures
        match r {
            Some(i) => i < credentials@.len() && default_credential(credentials.deep_view())
                == Some(credentials@[i as int].deep_view()),
            None => default_credential(credentials.deep_view()) is None,
        },
{
    let mut i: usize = 0;
    let ghost all = credentials.deep_view();
    assert(all.skip(0) =~= all);
    while i < credentials.len()
        invariant
            i <= credentials@.len(),
            all == credentials.deep_view(),
            marked_default(all) == marked_default(all.skip(i as int)),
        decreases credentials@.len() - i,
    {
        if credentials[i].is_default {
            return Some(i);
        }
        assert(all.skip(i as int).drop_first() =~= all.skip(i + 1));
        i = i + 1;
    }
    if credentials.len() == 0 {
        None
    } else {
        Some(0)
    }
}

fn collect_warnings(response: &AscAuthStatusResponse) -> (r: Vec<String>)
    ensures
        r.deep_view() == warnings_of(response.deep_view()),
{
    let mut warnings: Vec<String> = match &response.warnings {
        Some(warnings) => strings_clone(warnings),
        None => Vec::new(),
    };
    let ghost before = warnings.deep_view();
    assert(response.warnings is None ==> before =~= Seq::empty());
    if let Some(note) = &response.environment_note {
        if !trim(note.as_str()).as_str().is_empty() {
            warnings.push(note.clone());
            assert(warnings.deep_view() =~= before.push(note@));
        }
    }
    warnings
}

/// Whether the user is signed in, in words.
pub fn summarize_auth_status(response: AscAuthStatusResponse) -> (r: AscAuthSummary)
    ensures
        r.deep_view() == auth_summary_of(response.deep_view()),
{
    let warnings = collect_warnings(&response);
    let index = match default_credential_index(&response.credentials) {
        Some(index) => index,
        None => {
            let mut detail = "No App Store Connect credentials are stored in ".to_owned();
            detail.append(response.storage_backend.as_str());
            detail.append(".");
            return AscAuthSummary {
                headline: "Not authenticated".to_owned(),
                detail,
                warnings,
                healthy: false,
                authenticated: false,
            };
        },
    };
    let credential = &response.credentials[index];
    let validation = match &credential.validation {
        Some(validation) => validation.clone(),
        None => "unknown".to_owned(),
    };
    let healthy = eq_ignore_ascii_case(validation.as_str(), "works");
    let detail = match &credential.validation_error {
        Some(error) => error.clone(),
        None => match &credential.validation_detail {
            Some(detail) => detail.clone(),
            None => {
                let mut detail = "Default credential: ".to_owned();
                detail.append(credential.name.as_str());
                detail.append(" in ");
                detail.append(response.storage_backend.as_str());
                detail
            },
        },
    };
    let headline = if healthy {
        "Authentication validated".to_owned()
    } else {
        let mut headline = "Authentication status: ".to_owned();
        headline.append(validation.as_str());
        headline
    };
    AscAuthSummary { headline, detail, warnings, healthy, authenticated: true }
}

/// A user is signed in exactly where a credential is stored, and only then can all be well.
pub proof fn lemma_authenticated_iff_stored(response: AscAuthStatusResponseView)
    ensures
        auth_summary_of(response).authenticated <==> response.credentials.len() > 0,
        auth_summary_of(response).healthy ==> auth_summary_of(response).authenticated,
{
}

} // verus!
