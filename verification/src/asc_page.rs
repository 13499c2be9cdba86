//! The App Store Connect page that uploads builds and runs releases in a terminal.

use crate::appearance::Color;
use crate::asc_apps::{AscAppSummary, AscAppSummaryView, APP_STORE_CONNECT_PROVIDER_ID};
use crate::asc_builds::{app_resource, resource_of_app};
use crate::asc_provider::{picked_path, result_view, take_last_path};
use crate::cef_settings::Platform;
use crate::file_path::{extension, extension_of};
use crate::hub::{ServiceArtifactKind, ServiceArtifactRef, ServiceArtifactRefView};
use crate::hub::{ServiceOperationRequest, ServiceOperationRequestView};
use crate::hub::{ServiceResourceRef, ServiceResourceRefView};
use crate::input::ServiceInput;
use crate::load_state::{fetched, LoadState, LoadStateView};
use crate::lookup::{find_by_id, find_selected, first_id, first_with_id, id_of_first};
use crate::lookup::{keep_or_first, kept_or_first, lemma_first_with_id, lemma_member_has_id};
use crate::lookup::{selected_of, HasId};
use crate::text::{cat2, cat3, cat4, cat5, chars_of, eq_ignore_ascii_case, join, joined, lowercased};
use crate::text::{opt_clone, opt_is, strings_clone, trim, trimmed};
use vstd::prelude::*;
use vstd::string::*;

verus! {

/// Whether the user is signed in, in words.
#[derive(Debug, PartialEq, Eq)]
pub struct AscAuthSummary {
    pub headline: String,
    pub detail: String,
    pub healthy: bool,
}

/// The value of an [`AscAuthSummary`].
#[verifier::ext_equal]
pub struct AscAuthSummaryView {
    pub headline: Seq<char>,
    pub detail: Seq<char>,
    pub healthy: bool,
}

impl DeepView for AscAuthSummary {
    type V = AscAuthSummaryView;

    open spec fn deep_view(&self) -> AscAuthSummaryView {
        AscAuthSummaryView {
            headline: self.headline@,
            detail: self.detail@,
            healthy: self.healthy,
        }
    }
}

impl Clone for AscAuthSummary {
    fn clone(&self) -> (r: Self)
        ensures
            r.deep_view() == self.deep_view(),
    {
        AscAuthSummary {
            headline: self.headline.clone(),
            detail: self.detail.clone(),
            healthy: self.healthy,
        }
    }
}

/// A build of an app.
#[derive(Debug, PartialEq, Eq)]
pub struct AscBuildSummary {
    pub id: String,
    pub build_number: String,
    pub processing_state: String,
    pub uploaded_date: String,
    pub expiration_date: Option<String>,
    pub min_os_version: Option<String>,
}

/// The value of an [`AscBuildSummary`].
#[verifier::ext_equal]
pub struct AscBuildSummaryView {
    pub id: Seq<char>,
    pub build_number: Seq<char>,
    pub processing_state: Seq<char>,
    pub uploaded_date: Seq<char>,
    pub expiration_date: Option<Seq<char>>,
    pub min_os_version: Option<Seq<char>>,
}

impl DeepView for AscBuildSummary {
    type V = AscBuildSummaryView;

    open spec fn deep_view(&self) -> AscBuildSummaryView {
        AscBuildSummaryView {
            id: self.id@,
            build_number: self.build_number@,
            processing_state: self.processing_state@,
            uploaded_date: self.uploaded_date@,
            expiration_date: self.expiration_date.deep_view(),
            min_os_version: self.min_os_version.deep_view(),
        }
    }
}

impl Clone for AscBuildSummary {
    fn clone(&self) -> (r: Self)
        ensures
            r.deep_view() == self.deep_view(),
    {
        AscBuildSummary {
            id: self.id.clone(),
            build_number: self.build_number.clone(),
            processing_state: self.processing_state.clone(),
            uploaded_date: self.uploaded_date.clone(),
            expiration_date: opt_clone(&self.expiration_date),
            min_os_version: opt_clone(&self.min_os_version),
        }
    }
}

impl HasId for AscBuildSummary {
    open spec fn view_id(v: AscBuildSummaryView) -> Seq<char> {
        v.id
    }

    fn id_str(&self) -> (r: &str) {
        self.id.as_str()
    }
}

/// The page.
#[derive(Debug)]
pub struct AppStoreConnectPage {
    pub auth_state: LoadState<AscAuthSummary>,
    pub apps_state: LoadState<Vec<AscAppSummary>>,
    pub selected_app_id: Option<String>,
    pub builds_state: LoadState<Vec<AscBuildSummary>>,
    pub selected_build_id: Option<String>,
}

/// The value of an [`AppStoreConnectPage`].
#[verifier::ext_equal]
pub struct AppStoreConnectPageView {
    pub auth_state: LoadStateView<AscAuthSummaryView>,
    pub apps_state: LoadStateView<Seq<AscAppSummaryView>>,
    pub selected_app_id: Option<Seq<char>>,
    pub builds_state: LoadStateView<Seq<AscBuildSummaryView>>,
    pub selected_build_id: Option<Seq<char>>,
}

impl DeepView for AppStoreConnectPage {
    type V = AppStoreConnectPageView;

    open spec fn deep_view(&self) -> AppStoreConnectPageView {
        AppStoreConnectPageView {
            auth_state: self.auth_state.deep_view(),
            apps_state: self.apps_state.deep_view(),
            selected_app_id: self.selected_app_id.deep_view(),
            builds_state: self.builds_state.deep_view(),
            selected_build_id: self.selected_build_id.deep_view(),
        }
    }
}

/// A stored credential.
#[derive(Debug, PartialEq, Eq)]
pub struct AscCredential {
    pub name: String,
    pub is_default: bool,
    pub validation: Option<String>,
}

/// The value of an [`AscCredential`].
#[verifier::ext_equal]
pub struct AscCredentialView {
    pub name: Seq<char>,
    pub is_default: bool,
    pub validation: Option<Seq<char>>,
}

impl DeepView for AscCredential {
    type V = AscCredentialView;

    open spec fn deep_view(&self) -> AscCredentialView {
        AscCredentialView {
            name: self.name@,
            is_default: self.is_default,
            validation: self.validation.deep_view(),
        }
    }
}

impl Clone for AscCredential {
    fn clone(&self) -> (r: Self)
        ensures
            r.deep_view() == self.deep_view(),
    {
        AscCredential {
            name: self.name.clone(),
            is_default: self.is_default,
            validation: opt_clone(&self.validation),
        }
    }
}

/// The credentials that are stored.
#[derive(Debug, PartialEq, Eq)]
pub struct AscAuthStatusResponse {
    pub storage_backend: String,
    pub credentials: Vec<AscCredential>,
}

/// The value of an [`AscAuthStatusResponse`].
#[verifier::ext_equal]
pub struct AscAuthStatusResponseView {
    pub storage_backend: Seq<char>,
    pub credentials: Seq<AscCredentialView>,
}

impl DeepView for AscAuthStatusResponse {
    type V = AscAuthStatusResponseView;

    open spec fn deep_view(&self) -> AscAuthStatusResponseView {
        AscAuthStatusResponseView {
            storage_backend: self.storage_backend@,
            credentials: self.credentials.deep_view(),
        }
    }
}

impl Clone for AscAuthStatusResponse {
    fn clone(&self) -> (r: Self)
        ensures
            r.deep_view() == self.deep_view(),
    {
        let r = AscAuthStatusResponse {
            storage_backend: self.storage_backend.clone(),
            credentials: self.credentials.clone(),
        };
        assert(r.credentials.deep_view() =~= self.credentials.deep_view());
        r
    }
}

/// What App Store Connect says of a build.
#[derive(Debug, PartialEq, Eq)]
pub struct AscBuildAttributes {
    pub version: String,
    pub uploaded_date: String,
    pub expiration_date: Option<String>,
    pub processing_state: String,
    pub min_os_version: Option<String>,
}

/// The value of an [`AscBuildAttributes`].
#[verifier::ext_equal]
pub struct AscBuildAttributesView {
    pub version: Seq<char>,
    pub uploaded_date: Seq<char>,
    pub expiration_date: Option<Seq<char>>,
    pub processing_state: Seq<char>,
    pub min_os_version: Option<Seq<char>>,
}

impl DeepView for AscBuildAttributes {
    type V = AscBuildAttributesView;

    open spec fn deep_view(&self) -> AscBuildAttributesView {
        AscBuildAttributesView {
            version: self.version@,
            uploaded_date: self.uploaded_date@,
            expiration_date: self.expiration_date.deep_view(),
            processing_state: self.processing_state@,
            min_os_version: self.min_os_version.deep_view(),
        }
    }
}

impl Clone for AscBuildAttributes {
    fn clone(&self) -> (r: Self)
        ensures
            r.deep_view() == self.deep_view(),
    {
        AscBuildAttributes {
            version: self.version.clone(),
            uploaded_date: self.uploaded_date.clone(),
            expiration_date: opt_clone(&self.expiration_date),
            processing_state: self.processing_state.clone(),
            min_os_version: opt_clone(&self.min_os_version),
        }
    }
}

/// A build in a listing.
#[derive(Debug, PartialEq, Eq)]
pub struct AscBuildRecord {
    pub id: String,
    pub attributes: AscBuildAttributes,
}

/// The value of an [`AscBuildRecord`].
#[verifier::ext_equal]
pub struct AscBuildRecordView {
    pub id: Seq<char>,
    pub attributes: AscBuildAttributesView,
}

impl DeepView for AscBuildRecord {
    type V = AscBuildRecordView;

    open spec fn deep_view(&self) -> AscBuildRecordView {
        AscBuildRecordView {
            id: self.id@,
            attributes: self.attributes.deep_view(),
        }
    }
}

impl Clone for AscBuildRecord {
    fn clone(&self) -> (r: Self)
        ensures
            r.deep_view() == self.deep_view(),
    {
        AscBuildRecord {
            id: self.id.clone(),
            attributes: self.attributes.clone(),
        }
    }
}

/// A listing of builds.
#[derive(Debug, PartialEq, Eq)]
pub struct AscBuildsResponse {
    pub data: Vec<AscBuildRecord>,
}

/// The value of an [`AscBuildsResponse`].
#[verifier::ext_equal]
pub struct AscBuildsResponseView {
    pub data: Seq<AscBuildRecordView>,
}

impl DeepView for AscBuildsResponse {
    type V = AscBuildsResponseView;

    open spec fn deep_view(&self) -> AscBuildsResponseView {
        AscBuildsResponseView {
            data: self.data.deep_view(),
        }
    }
}

impl Clone for AscBuildsResponse {
    fn clone(&self) -> (r: Self)
        ensures
            r.deep_view() == self.deep_view(),
    {
        let r = AscBuildsResponse {
            data: self.data.clone(),
        };
        assert(r.data.deep_view() =~= self.data.deep_view());
        r
    }
}

/// What came of asking the user for a path.
#[derive(Debug, PartialEq, Eq)]
pub enum PathChoice {
    Nothing,
    Path { path: String },
    Error { message: String },
}

/// The value of a [`PathChoice`].
#[verifier::ext_equal]
pub enum PathChoiceView {
    Nothing,
    Path { path: Seq<char> },
    Error { message: Seq<char> },
}

impl DeepView for PathChoice {
    type V = PathChoiceView;

    open spec fn deep_view(&self) -> PathChoiceView {
        match self {
            PathChoice::Nothing => PathChoiceView::Nothing,
            PathChoice::Path { path } => PathChoiceView::Path {
                path: path@,
            },
            PathChoice::Error { message } => PathChoiceView::Error {
                message: message@,
            },
        }
    }
}

impl Clone for PathChoice {
    fn clone(&self) -> (r: Self)
        ensures
            r.deep_view() == self.deep_view(),
    {
        match self {
            PathChoice::Nothing => PathChoice::Nothing,
            PathChoice::Path { path } => {
                PathChoice::Path { path: path.clone() }
            },
            PathChoice::Error { message } => {
                PathChoice::Error { message: message.clone() }
            },
        }
    }
}

/// What happens when the user wants to upload a build.
#[derive(Debug, PartialEq, Eq)]
pub enum UploadPrompt {
    /// The user is told why not.
    Refused { message: String },
    /// The user is asked for a file.
    AskForFile { app: AscAppSummary, prompt: String },
}

/// The value of a [`UploadPrompt`].
#[verifier::ext_equal]
pub enum UploadPromptView {
    Refused { message: Seq<char> },
    AskForFile { app: AscAppSummaryView, prompt: Seq<char> },
}

impl DeepView for UploadPrompt {
    type V = UploadPromptView;

    open spec fn deep_view(&self) -> UploadPromptView {
        match self {
            UploadPrompt::Refused { message } => UploadPromptView::Refused {
                message: message@,
            },
            UploadPrompt::AskForFile { app, prompt } => UploadPromptView::AskForFile {
                app: app.deep_view(),
                prompt: prompt@,
            },
        }
    }
}

impl Clone for UploadPrompt {
    fn clone(&self) -> (r: Self)
        ensures
            r.deep_view() == self.deep_view(),
    {
        match self {
            UploadPrompt::Refused { message } => {
                UploadPrompt::Refused { message: message.clone() }
            },
            UploadPrompt::AskForFile { app, prompt } => {
                UploadPrompt::AskForFile { app: app.clone(), prompt: prompt.clone() }
            },
        }
    }
}

/// What happens when the user wants to run a release.
#[derive(Debug, PartialEq, Eq)]
pub enum ReleasePrompt {
    /// The user is told why not.
    Refused { message: String },
    /// The user is asked for the directory of the metadata.
    AskForMetadata { app: AscAppSummary, build: AscBuildSummary },
}

/// The value of a [`ReleasePrompt`].
#[verifier::ext_equal]
pub enum ReleasePromptView {
    Refused { message: Seq<char> },
    AskForMetadata { app: AscAppSummaryView, build: AscBuildSummaryView },
}

impl DeepView for ReleasePrompt {
    type V = ReleasePromptView;

    open spec fn deep_view(&self) -> ReleasePromptView {
        match self {
            ReleasePrompt::Refused { message } => ReleasePromptView::Refused {
                message: message@,
            },
            ReleasePrompt::AskForMetadata { app, build } => ReleasePromptView::AskForMetadata {
                app: app.deep_view(),
                build: build.deep_view(),
            },
        }
    }
}

impl Clone for ReleasePrompt {
    fn clone(&self) -> (r: Self)
        ensures
            r.deep_view() == self.deep_view(),
    {
        match self {
            ReleasePrompt::Refused { message } => {
                ReleasePrompt::Refused { message: message.clone() }
            },
            ReleasePrompt::AskForMetadata { app, build } => {
                ReleasePrompt::AskForMetadata { app: app.clone(), build: build.clone() }
            },
        }
    }
}

/// An operation to be run in a terminal.
#[derive(Debug, PartialEq, Eq)]
pub struct TerminalOperation {
    pub operation_id: String,
    pub request: ServiceOperationRequest,
}

/// The value of a [`TerminalOperation`].
#[verifier::ext_equal]
pub struct TerminalOperationView {
    pub operation_id: Seq<char>,
    pub request: ServiceOperationRequestView,
}

impl DeepView for TerminalOperation {
    type V = TerminalOperationView;

    open spec fn deep_view(&self) -> TerminalOperationView {
        TerminalOperationView {
            operation_id: self.operation_id@,
            request: self.request.deep_view(),
        }
    }
}

impl Clone for TerminalOperation {
    fn clone(&self) -> (r: Self)
        ensures
            r.deep_view() == self.deep_view(),
    {
        TerminalOperation {
            operation_id: self.operation_id.clone(),
            request: self.request.clone(),
        }
    }
}

/// What comes of a file to be uploaded.
#[derive(Debug, PartialEq, Eq)]
pub enum Upload {
    /// The user is told why not.
    Refused { message: String },
    Run { operation: TerminalOperation },
}

/// The value of a [`Upload`].
#[verifier::ext_equal]
pub enum UploadView {
    Refused { message: Seq<char> },
    Run { operation: TerminalOperationView },
}

impl DeepView for Upload {
    type V = UploadView;

    open spec fn deep_view(&self) -> UploadView {
        match self {
            Upload::Refused { message } => UploadView::Refused {
                message: message@,
            },
            Upload::Run { operation } => UploadView::Run {
                operation: operation.deep_view(),
            },
        }
    }
}

impl Clone for Upload {
    fn clone(&self) -> (r: Self)
        ensures
            r.deep_view() == self.deep_view(),
    {
        match self {
            Upload::Refused { message } => {
                Upload::Refused { message: message.clone() }
            },
            Upload::Run { operation } => {
                Upload::Run { operation: operation.clone() }
            },
        }
    }
}

/// A command to be run.
#[derive(Debug, PartialEq, Eq)]
pub struct ServiceCommandPlan {
    pub label: String,
    pub command: String,
    pub args: Vec<String>,
}

/// The value of a [`ServiceCommandPlan`].
#[verifier::ext_equal]
pub struct ServiceCommandPlanView {
    pub label: Seq<char>,
    pub command: Seq<char>,
    pub args: Seq<Seq<char>>,
}

impl DeepView for ServiceCommandPlan {
    type V = ServiceCommandPlanView;

    open spec fn deep_view(&self) -> ServiceCommandPlanView {
        ServiceCommandPlanView {
            label: self.label@,
            command: self.command@,
            args: self.args.deep_view(),
        }
    }
}

impl Clone for ServiceCommandPlan {
    fn clone(&self) -> (r: Self)
        ensures
            r.deep_view() == self.deep_view(),
    {
        ServiceCommandPlan {
            label: self.label.clone(),
            command: self.command.clone(),
            args: strings_clone(&self.args),
        }
    }
}

/// A command in a terminal.
#[derive(Debug, PartialEq, Eq)]
pub struct TerminalTask {
    pub id: String,
    pub full_label: String,
    pub label: String,
    pub command: String,
    pub args: Vec<String>,
    pub command_label: String,
}

/// The value of a [`TerminalTask`].
#[verifier::ext_equal]
pub struct TerminalTaskView {
    pub id: Seq<char>,
    pub full_label: Seq<char>,
    pub label: Seq<char>,
    pub command: Seq<char>,
    pub args: Seq<Seq<char>>,
    pub command_label: Seq<char>,
}

impl DeepView for TerminalTask {
    type V = TerminalTaskView;

    open spec fn deep_view(&self) -> TerminalTaskView {
        TerminalTaskView {
            id: self.id@,
            full_label: self.full_label@,
            label: self.label@,
            command: self.command@,
            args: self.args.deep_view(),
            command_label: self.command_label@,
        }
    }
}

impl Clone for TerminalTask {
    fn clone(&self) -> (r: Self)
        ensures
            r.deep_view() == self.deep_view(),
    {
        TerminalTask {
            id: self.id.clone(),
            full_label: self.full_label.clone(),
            label: self.label.clone(),
            command: self.command.clone(),
            args: strings_clone(&self.args),
            command_label: self.command_label.clone(),
        }
    }
}

/// A status, and what there is to add.
#[derive(Debug, PartialEq, Eq)]
pub struct StatusText {
    pub headline: String,
    pub color: Color,
    pub detail: Option<String>,
}

/// The value of a [`StatusText`].
#[verifier::ext_equal]
pub struct StatusTextView {
    pub headline: Seq<char>,
    pub color: Color,
    pub detail: Option<Seq<char>>,
}

impl DeepView for StatusText {
    type V = StatusTextView;

    open spec fn deep_view(&self) -> StatusTextView {
        StatusTextView {
            headline: self.headline@,
            color: self.color,
            detail: self.detail.deep_view(),
        }
    }
}

impl Clone for StatusText {
    fn clone(&self) -> (r: Self)
        ensures
            r.deep_view() == self.deep_view(),
    {
        StatusText {
            headline: self.headline.clone(),
            color: self.color,
            detail: opt_clone(&self.detail),
        }
    }
}

/// An entry of a list.
#[derive(Debug, PartialEq, Eq)]
pub struct ListEntry {
    pub element_id: String,
    pub id: String,
    pub title: String,
    pub subtitle: String,
    pub selected: bool,
}

/// The value of a [`ListEntry`].
#[verifier::ext_equal]
pub struct ListEntryView {
    pub element_id: Seq<char>,
    pub id: Seq<char>,
    pub title: Seq<char>,
    pub subtitle: Seq<char>,
    pub selected: bool,
}

impl DeepView for ListEntry {
    type V = ListEntryView;

    open spec fn deep_view(&self) -> ListEntryView {
        ListEntryView {
            element_id: self.element_id@,
            id: self.id@,
            title: self.title@,
            subtitle: self.subtitle@,
            selected: self.selected,
        }
    }
}

impl Clone for ListEntry {
    fn clone(&self) -> (r: Self)
        ensures
            r.deep_view() == self.deep_view(),
    {
        ListEntry {
            element_id: self.element_id.clone(),
            id: self.id.clone(),
            title: self.title.clone(),
            subtitle: self.subtitle.clone(),
            selected: self.selected,
        }
    }
}

/// A list, or why there is none.
#[derive(Debug, PartialEq, Eq)]
pub enum ListPanel {
    Message { status: StatusText },
    List { entries: Vec<ListEntry> },
}

/// The value of a [`ListPanel`].
#[verifier::ext_equal]
pub enum ListPanelView {
    Message { status: StatusTextView },
    List { entries: Seq<ListEntryView> },
}

impl DeepView for ListPanel {
    type V = ListPanelView;

    open spec fn deep_view(&self) -> ListPanelView {
        match self {
            ListPanel::Message { status } => ListPanelView::Message {
                status: status.deep_view(),
            },
            ListPanel::List { entries } => ListPanelView::List {
                entries: entries.deep_view(),
            },
        }
    }
}

impl Clone for ListPanel {
    fn clone(&self) -> (r: Self)
        ensures
            r.deep_view() == self.deep_view(),
    {
        match self {
            ListPanel::Message { status } => {
                ListPanel::Message { status: status.clone() }
            },
            ListPanel::List { entries } => {
                let copied_entries = entries.clone();
                assert(copied_entries.deep_view() =~= entries.deep_view());
                ListPanel::List { entries: copied_entries }
            },
        }
    }
}

/// What the page shows.
#[derive(Debug, PartialEq, Eq)]
pub struct PageModel {
    pub auth: StatusText,
    pub refresh_builds_disabled: bool,
    pub upload_disabled: bool,
    pub release_disabled: bool,
    pub apps: ListPanel,
    pub builds: ListPanel,
    pub selected_app_label: String,
    pub selected_build_label: String,
}

/// The value of a [`PageModel`].
#[verifier::ext_equal]
pub struct PageModelView {
    pub auth: StatusTextView,
    pub refresh_builds_disabled: bool,
    pub upload_disabled: bool,
    pub release_disabled: bool,
    pub apps: ListPanelView,
    pub builds: ListPanelView,
    pub selected_app_label: Seq<char>,
    pub selected_build_label: Seq<char>,
}

impl DeepView for PageModel {
    type V = PageModelView;

    open spec fn deep_view(&self) -> PageModelView {
        PageModelView {
            auth: self.auth.deep_view(),
            refresh_builds_disabled: self.refresh_builds_disabled,
            upload_disabled: self.upload_disabled,
            release_disabled: self.release_disabled,
            apps: self.apps.deep_view(),
            builds: self.builds.deep_view(),
            selected_app_label: self.selected_app_label@,
            selected_build_label: self.selected_build_label@,
        }
    }
}

impl Clone for PageModel {
    fn clone(&self) -> (r: Self)
        ensures
            r.deep_view() == self.deep_view(),
    {
        PageModel {
            auth: self.auth.clone(),
            refresh_builds_disabled: self.refresh_builds_disabled,
            upload_disabled: self.upload_disabled,
            release_disabled: self.release_disabled,
            apps: self.apps.clone(),
            builds: self.builds.clone(),
            selected_app_label: self.selected_app_label.clone(),
            selected_build_label: self.selected_build_label.clone(),
        }
    }
}

/// What is said where the output of the command line cannot be read.
pub const UNREADABLE_OUTPUT: &'static str =
    "Failed to parse JSON output from App Store Connect CLI";

/// A character that stands for itself in an identifier.
pub open spec fn is_id_char(c: char) -> bool {
    ||| '0' <= c <= '9'
    ||| 'A' <= c <= 'Z'
    ||| 'a' <= c <= 'z'
}

/// `value` with a hyphen in place of all that is neither a letter nor a digit.
pub open spec fn sanitized(value: Seq<char>) -> Seq<char> {
    value.map_values(
        |c: char|
            if is_id_char(c) {
                c
            } else {
                '-'
            },
    )
}

/// `value` with a hyphen in place of all that is neither a letter nor a digit.
pub fn sanitize_for_id(value: &str) -> (r: String)
    ensures
        r@ == sanitized(value@),
{
    let chars = chars_of(value);
    let mut r = String::new();
    let mut i: usize = 0;
    while i < chars.len()
        invariant
            i <= chars@.len(),
            chars@ == value@,
            r@ == sanitized(value@.take(i as int)),
        decreases chars@.len() - i,
    {
        let c = chars[i];
        let kept = ('0' <= c && c <= '9') || ('A' <= c && c <= 'Z') || ('a' <= c && c <= 'z');
        r.push(
            if kept {
                c
            } else {
                '-'
            },
        );
        assert(r@ =~= sanitized(value@.take(i + 1)));
        i = i + 1;
    }
    assert(value@.take(i as int) =~= value@);
    r
}

/// Cleaning an identifier keeps its length and every character that may stand in it, leaves
/// nothing but letters, digits and hyphens, and does nothing more when done again.
pub proof fn lemma_sanitized(value: Seq<char>)
    ensures
        sanitized(value).len() == value.len(),
        forall|i: int|
            0 <= i < value.len() ==> is_id_char(#[trigger] sanitized(value)[i]) || sanitized(
                value,
            )[i] == '-',
        forall|i: int|
            0 <= i < value.len() && is_id_char(value[i]) ==> #[trigger] sanitized(value)[i]
                == value[i],
        sanitized(sanitized(value)) == sanitized(value),
{
    assert(sanitized(sanitized(value)) =~= sanitized(value));
}

/// The file at `path` goes by the extension.
pub open spec fn has_extension(path: Seq<char>, wanted: Seq<char>, platform: Platform) -> bool {
    match extension_of(path, platform) {
        Some(extension) => lowercased(extension) == lowercased(wanted),
        None => false,
    }
}

/// The file at `path` can be uploaded as an artifact of the kind.
pub open spec fn matches_kind(
    path: Seq<char>,
    kind: ServiceArtifactKind,
    platform: Platform,
) -> bool {
    match kind {
        ServiceArtifactKind::Ipa => has_extension(path, "ipa"@, platform),
        ServiceArtifactKind::Pkg => has_extension(path, "pkg"@, platform),
        ServiceArtifactKind::AppBundle | ServiceArtifactKind::Binary => false,
    }
}

fn extension_is(path: &str, wanted: &str, platform: Platform) -> (r: bool)
    ensures
        r == has_extension(path@, wanted@, platform),
{
    match extension(path, platform) {
        Some(extension) => eq_ignore_ascii_case(extension.as_str(), wanted),
        None => false,
    }
}

/// Whether the file at `path`, written as on the platform, can be uploaded as an artifact of the
/// kind. The case of the extension does not matter.
pub fn artifact_matches_kind(
    path: &str,
    artifact_kind: ServiceArtifactKind,
    platform: Platform,
) -> (r: bool)
    ensures
        r == matches_kind(path@, artifact_kind, platform),
{
    match artifact_kind {
        ServiceArtifactKind::Ipa => extension_is(path, "ipa", platform),
        ServiceArtifactKind::Pkg => extension_is(path, "pkg", platform),
        ServiceArtifactKind::AppBundle | ServiceArtifactKind::Binary => false,
    }
}

/// No file can be uploaded as two kinds of artifact.
pub proof fn lemma_one_kind_of_artifact(
    path: Seq<char>,
    a: ServiceArtifactKind,
    b: ServiceArtifactKind,
    platform: Platform,
)
    requires
        matches_kind(path, a, platform),
        matches_kind(path, b, platform),
    ensures
        a == b,
{
    reveal_strlit("ipa");
    reveal_strlit("pkg");
    assert(lowercased("ipa"@)[0] == 'i');
    assert(lowercased("pkg"@)[0] == 'p');
}

/// What an artifact is called in the identifier of an operation.
pub open spec fn operation_name(kind: ServiceArtifactKind) -> Seq<char> {
    match kind {
        ServiceArtifactKind::Ipa => "ipa"@,
        ServiceArtifactKind::Pkg => "pkg"@,
        ServiceArtifactKind::AppBundle => "app-bundle"@,
        ServiceArtifactKind::Binary => "binary"@,
    }
}

/// What an artifact is called in the identifier of an operation.
pub fn artifact_operation_name(artifact_kind: ServiceArtifactKind) -> (r: &'static str)
    ensures
        r@ == operation_name(artifact_kind),
{
    match artifact_kind {
        ServiceArtifactKind::Ipa => "ipa",
        ServiceArtifactKind::Pkg => "pkg",
        ServiceArtifactKind::AppBundle => "app-bundle",
        ServiceArtifactKind::Binary => "binary",
    }
}

/// How the validation of a credential is put into words.
pub open spec fn validation_label_of(validation: Seq<char>) -> Seq<char> {
    if lowercased(validation) == lowercased("works"@) {
        "Authentication validated"@
    } else {
        "Authentication status: "@ + validation
    }
}

/// How the validation of a credential is put into words.
pub fn validation_label(validation: &str) -> (r: String)
    ensures
        r@ == validation_label_of(validation@),
{
    if eq_ignore_ascii_case(validation, "works") {
        "Authentication validated".to_owned()
    } else {
        cat2("Authentication status: ", validation)
    }
}

/// The first credential that is marked as the default.
pub open spec fn marked_default(credentials: Seq<AscCredentialView>) -> Option<AscCredentialView>
    decreases credentials.len(),
{
    if credentials.len() == 0 {
        None
    } else if credentials[0].is_default {
        Some(credentials[0])
    } else {
        marked_default(credentials.drop_first())
    }
}

/// How the validation of the default credential came out.
pub open spec fn validation_of(credential: Option<AscCredentialView>) -> Seq<char> {
    match credential {
        Some(credential) => match credential.validation {
            Some(validation) => validation,
            None => "unknown"@,
        },
        None => "unknown"@,
    }
}

/// Whether the user is signed in, in words.
pub open spec fn auth_summary_of(response: AscAuthStatusResponseView) -> AscAuthSummaryView {
    let credential = marked_default(response.credentials);
    let validation = validation_of(credential);
    AscAuthSummaryView {
        headline: validation_label_of(validation) + " via "@ + response.storage_backend,
        detail: "Default credential: "@ + (match credential {
            Some(credential) => credential.name,
            None => "No default credential"@,
        }),
        healthy: lowercased(validation) == lowercased("works"@),
    }
}

fn default_credential_index(credentials: &Vec<AscCredential>) -> (r: Option<usize>)
    ensures
        match r {
            Some(i) => i < credentials@.len() && marked_default(credentials.deep_view()) == Some(
                credentials@[i as int].deep_view(),
            ),
            None => marked_default(credentials.deep_view()) is None,
        },
{
    let mut i: usize = 0;
    let ghost all = credentials.deep_view();
    assert(all.skip(0) =~= all);
    while i < credentials.len()
        invariant
            i <= credentials@.len(),
            all == credentials.deep_view(),
            marked_default(all) == marked_default(all.skip(i as int)),
        decreases credentials@.len() - i,
    {
        if credentials[i].is_default {
            return Some(i);
        }
        assert(all.skip(i as int).drop_first() =~= all.skip(i + 1));
        i = i + 1;
    }
    None
}

/// Whether the user is signed in, in words.
pub fn summarize_auth_status(response: AscAuthStatusResponse) -> (r: AscAuthSummary)
    ensures
        r.deep_view() == auth_summary_of(response.deep_view()),
{
    let index = default_credential_index(&response.credentials);
    let validation = match index {
        Some(i) => match &response.credentials[i].validation {
            Some(validation) => validation.clone(),
            None => "unknown".to_owned(),
        },
        None => "unknown".to_owned(),
    };
    let name = match index {
        Some(i) => response.credentials[i].name.clone(),
        None => "No default credential".to_owned(),
    };
    AscAuthSummary {
        headline: cat3(
            validation_label(validation.as_str()).as_str(),
            " via ",
            response.storage_backend.as_str(),
        ),
        detail: cat2("Default credential: ", name.as_str()),
        healthy: eq_ignore_ascii_case(validation.as_str(), "works"),
    }
}

/// What is asked for to load the builds of an app.
pub open spec fn builds_request_of(app: AscAppSummaryView) -> ServiceOperationRequestView {
    ServiceOperationRequestView {
        provider_id: APP_STORE_CONNECT_PROVIDER_ID@,
        operation: "list_builds"@,
        resource: Some(app_resource(app)),
        artifact: None,
        input: Map::empty().insert("paginate"@, "true"@).insert("sort"@, "-uploadedDate"@),
    }
}

/// What is asked for to load the builds of an app.
pub fn builds_request(app: &AscAppSummary) -> (r: ServiceOperationRequest)
    ensures
        r.deep_view() == builds_request_of(app.deep_view()),
{
    ServiceOperationRequest {
        provider_id: APP_STORE_CONNECT_PROVIDER_ID.to_owned(),
        operation: "list_builds".to_owned(),
        resource: Some(resource_of_app(app)),
        artifact: None,
        input: ServiceInput::new().with("paginate", "true".to_owned()).with(
            "sort",
            "-uploadedDate".to_owned(),
        ),
    }
}

/// The build that a record describes.
pub open spec fn build_of_record(record: AscBuildRecordView) -> AscBuildSummaryView {
    AscBuildSummaryView {
        id: record.id,
        build_number: record.attributes.version,
        processing_state: record.attributes.processing_state,
        uploaded_date: record.attributes.uploaded_date,
        expiration_date: record.attributes.expiration_date,
        min_os_version: record.attributes.min_os_version,
    }
}

/// The builds of a listing.
pub fn builds_from_response(response: AscBuildsResponse) -> (r: Vec<AscBuildSummary>)
    ensures
        r.deep_view() == response.deep_view().data.map_values(
            |record: AscBuildRecordView| build_of_record(record),
        ),
{
    let mut builds: Vec<AscBuildSummary> = Vec::new();
    let mut i: usize = 0;
    while i < response.data.len()
        invariant
            i <= response.data@.len(),
            builds@.len() == i,
            forall|j: int|
                0 <= j < i ==> (#[trigger] builds@[j]).deep_view() == build_of_record(
                    response.data@[j].deep_view(),
                ),
        decreases response.data@.len() - i,
    {
        let record = &response.data[i];
        builds.push(
            AscBuildSummary {
                id: record.id.clone(),
                build_number: record.attributes.version.clone(),
                processing_state: record.attributes.processing_state.clone(),
                uploaded_date: record.attributes.uploaded_date.clone(),
                expiration_date: opt_clone(&record.attributes.expiration_date),
                min_os_version: opt_clone(&record.attributes.min_os_version),
            },
        );
        i = i + 1;
    }
    assert(builds.deep_view() =~= response.deep_view().data.map_values(
        |record: AscBuildRecordView| build_of_record(record),
    ));
    builds
}

/// What is asked for to learn the app version of a build.
pub open spec fn version_request_of(build: AscBuildSummaryView) -> ServiceOperationRequestView {
    ServiceOperationRequestView {
        provider_id: APP_STORE_CONNECT_PROVIDER_ID@,
        operation: "build_pre_release_version"@,
        resource: Some(
            ServiceResourceRefView {
                provider_id: APP_STORE_CONNECT_PROVIDER_ID@,
                kind: "build"@,
                external_id: build.id,
                label: build.build_number,
            },
        ),
        artifact: None,
        input: Map::empty(),
    }
}

/// What is asked for to learn the app version of a build.
pub fn pre_release_version_request(build: &AscBuildSummary) -> (r: ServiceOperationRequest)
    ensures
        r.deep_view() == version_request_of(build.deep_view()),
{
    ServiceOperationRequest {
        provider_id: APP_STORE_CONNECT_PROVIDER_ID.to_owned(),
        operation: "build_pre_release_version".to_owned(),
        resource: Some(
            ServiceResourceRef {
                provider_id: APP_STORE_CONNECT_PROVIDER_ID.to_owned(),
                kind: "build".to_owned(),
                external_id: build.id.clone(),
                label: build.build_number.clone(),
            },
        ),
        artifact: None,
        input: ServiceInput::new(),
    }
}

/// What is said where the app version of a build cannot be had.
pub fn version_error(error: &str) -> (r: String)
    ensures
        r@ == "Could not determine the selected build's app version: "@ + error@,
{
    cat2("Could not determine the selected build's app version: ", error)
}

/// What is said where a command cannot be started.
pub fn start_error(command: &str) -> (r: String)
    ensures
        r@ == "Failed to start `"@ + command@ + "`"@,
{
    cat3("Failed to start `", command, "`")
}

/// What is said of a command that failed: what it wrote to its error output, or else to its
/// output, or else that it failed.
pub open spec fn failure_of(command: Seq<char>, stdout: Seq<char>, stderr: Seq<char>) -> Seq<char> {
    if trimmed(stderr).len() > 0 {
        trimmed(stderr)
    } else if trimmed(stdout).len() > 0 {
        trimmed(stdout)
    } else {
        "`"@ + command + "` exited unsuccessfully"@
    }
}

/// What is said of a command that failed.
pub fn command_failure(command: &str, stdout: &str, stderr: &str) -> (r: String)
    ensures
        r@ == failure_of(command@, stdout@, stderr@),
{
    let stderr = trim(stderr);
    if !stderr.as_str().is_empty() {
        return stderr;
    }
    let stdout = trim(stdout);
    if !stdout.as_str().is_empty() {
        return stdout;
    }
    cat3("`", command, "` exited unsuccessfully")
}

/// A command that failed is never passed over in silence.
pub proof fn lemma_failure_says_something(
    command: Seq<char>,
    stdout: Seq<char>,
    stderr: Seq<char>,
)
    ensures
        failure_of(command, stdout, stderr).len() > 0,
{
    reveal_strlit("`");
}

/// What came of asking the user for a path: the last that was picked.
pub open spec fn path_choice(
    outcome: Result<Option<Seq<Seq<char>>>, Seq<char>>,
) -> PathChoiceView {
    match outcome {
        Ok(paths) => match picked_path(paths) {
            Some(path) => PathChoiceView::Path { path },
            None => PathChoiceView::Nothing,
        },
        Err(message) => PathChoiceView::Error { message },
    }
}

/// What came of asking the user for a path.
pub fn chosen_path(outcome: Result<Option<Vec<String>>, String>) -> (r: PathChoice)
    ensures
        r.deep_view() == path_choice(result_view(outcome)),
{
    match outcome {
        Ok(paths) => match take_last_path(paths) {
            Some(path) => PathChoice::Path { path },
            None => PathChoice::Nothing,
        },
        Err(message) => PathChoice::Error { message },
    }
}

/// The task that runs a command in a terminal.
pub open spec fn terminal_task_of(
    operation_id: Seq<char>,
    plan: ServiceCommandPlanView,
) -> TerminalTaskView {
    TerminalTaskView {
        id: "service-hub-"@ + sanitized(operation_id),
        full_label: plan.label,
        label: plan.label,
        command: plan.command,
        args: plan.args,
        command_label: joined(seq![plan.command] + plan.args, " "@),
    }
}

/// The task that runs a command in a terminal.
pub fn execute_terminal_plan(operation_id: &str, plan: ServiceCommandPlan) -> (r: TerminalTask)
    ensures
        r.deep_view() == terminal_task_of(operation_id@, plan.deep_view()),
{
    let mut words: Vec<String> = Vec::new();
    words.push(plan.command.clone());
    let ghost args = plan.deep_view().args;
    let ghost head = seq![plan.command@];
    let mut i: usize = 0;
    assert(words.deep_view() =~= head + args.take(0));
    while i < plan.args.len()
        invariant
            i <= plan.args@.len(),
            args == plan.args.deep_view(),
            words.deep_view() == head + args.take(i as int),
        decreases plan.args@.len() - i,
    {
        let ghost before = words.deep_view();
        words.push(plan.args[i].clone());
        assert(words.deep_view() =~= before.push(args[i as int]));
        assert(words.deep_view() =~= head + args.take(i + 1));
        i = i + 1;
    }
    assert(args.take(i as int) =~= args);
    let command_label = join(&words, " ");
    TerminalTask {
        id: cat2("service-hub-", sanitize_for_id(operation_id).as_str()),
        full_label: plan.label.clone(),
        label: plan.label,
        command: plan.command,
        args: plan.args,
        command_label,
    }
}

/// The upload of a build.
pub open spec fn upload_operation(
    app: AscAppSummaryView,
    kind: ServiceArtifactKind,
    path: Seq<char>,
) -> TerminalOperationView {
    TerminalOperationView {
        operation_id: "upload-build-"@ + app.id + "-"@ + operation_name(kind),
        request: ServiceOperationRequestView {
            provider_id: APP_STORE_CONNECT_PROVIDER_ID@,
            operation: "upload_build"@,
            resource: Some(app_resource(app)),
            artifact: Some(ServiceArtifactRefView { kind, path }),
            input: Map::empty().insert("wait"@, "true"@),
        },
    }
}

/// What is said of a file that is no artifact of the kind.
pub open spec fn mismatch_message(kind: ServiceArtifactKind) -> Seq<char> {
    "The selected file does not match the expected "@ + (match kind {
        ServiceArtifactKind::Ipa => ".ipa"@,
        ServiceArtifactKind::Pkg => ".pkg"@,
        ServiceArtifactKind::AppBundle | ServiceArtifactKind::Binary => "supported artifact"@,
    }) + " artifact."@
}

/// What comes of a file to be uploaded.
pub open spec fn upload_of(
    app: AscAppSummaryView,
    kind: ServiceArtifactKind,
    path: Seq<char>,
    platform: Platform,
) -> UploadView {
    if matches_kind(path, kind, platform) {
        UploadView::Run { operation: upload_operation(app, kind, path) }
    } else {
        UploadView::Refused { message: mismatch_message(kind) }
    }
}

/// Uploads a file, unless it is no artifact of the kind.
pub fn upload_artifact(
    app: &AscAppSummary,
    artifact_kind: ServiceArtifactKind,
    path: String,
    platform: Platform,
) -> (r: Upload)
    ensures
        r.deep_view() == upload_of(app.deep_view(), artifact_kind, path@, platform),
{
    if !artifact_matches_kind(path.as_str(), artifact_kind, platform) {
        let expected = match artifact_kind {
            ServiceArtifactKind::Ipa => ".ipa",
            ServiceArtifactKind::Pkg => ".pkg",
            ServiceArtifactKind::AppBundle | ServiceArtifactKind::Binary => "supported artifact",
        };
        return Upload::Refused {
            message: cat3("The selected file does not match the expected ", expected, " artifact."),
        };
    }
    let operation_id = cat4(
        "upload-build-",
        app.id.as_str(),
        "-",
        artifact_operation_name(artifact_kind),
    );
    let request = ServiceOperationRequest {
        provider_id: APP_STORE_CONNECT_PROVIDER_ID.to_owned(),
        operation: "upload_build".to_owned(),
        resource: Some(resource_of_app(app)),
        artifact: Some(ServiceArtifactRef { kind: artifact_kind, path }),
        input: ServiceInput::new().with("wait", "true".to_owned()),
    };
    Upload::Run { operation: TerminalOperation { operation_id, request } }
}

/// The run of a release. One that is not confirmed is tried out only.
pub open spec fn release_operation(
    app: AscAppSummaryView,
    build: AscBuildSummaryView,
    version: Seq<char>,
    metadata_dir: Seq<char>,
    confirm: bool,
) -> TerminalOperationView {
    TerminalOperationView {
        operation_id: "release-run-"@ + app.id + "-"@ + build.id + (if confirm {
            "-confirm"@
        } else {
            "-dry-run"@
        }),
        request: ServiceOperationRequestView {
            provider_id: APP_STORE_CONNECT_PROVIDER_ID@,
            operation: "release_run"@,
            resource: Some(app_resource(app)),
            artifact: None,
            input: Map::empty().insert("version"@, version).insert("build"@, build.id).insert(
                "metadata_dir"@,
                metadata_dir,
            ).insert(
                "dry_run"@,
                if confirm {
                    "false"@
                } else {
                    "true"@
                },
            ),
        },
    }
}

/// Runs a release. One that is not confirmed is tried out only.
pub fn run_release(
    app: &AscAppSummary,
    build: &AscBuildSummary,
    version: String,
    metadata_dir: String,
    confirm: bool,
) -> (r: TerminalOperation)
    ensures
        r.deep_view() == release_operation(
            app.deep_view(),
            build.deep_view(),
            version@,
            metadata_dir@,
            confirm,
        ),
{
    let (suffix, dry_run) = if confirm {
        ("-confirm", "false")
    } else {
        ("-dry-run", "true")
    };
    TerminalOperation {
        operation_id: cat5("release-run-", app.id.as_str(), "-", build.id.as_str(), suffix),
        request: ServiceOperationRequest {
            provider_id: APP_STORE_CONNECT_PROVIDER_ID.to_owned(),
            operation: "release_run".to_owned(),
            resource: Some(resource_of_app(app)),
            artifact: None,
            input: ServiceInput::new().with("version", version).with(
                "build",
                build.id.clone(),
            ).with("metadata_dir", metadata_dir).with("dry_run", dry_run.to_owned()),
        },
    }
}

/// A release is carried out only where the user confirmed it, with the version, build and metadata
/// that it was asked for with.
pub proof fn lemma_release_input(
    app: AscAppSummaryView,
    build: AscBuildSummaryView,
    version: Seq<char>,
    metadata_dir: Seq<char>,
    confirm: bool,
)
    ensures
        ({
            let input = release_operation(
                app,
                build,
                version,
                metadata_dir,
                confirm,
            ).request.input;
            &&& input.contains_key("dry_run"@) && input["dry_run"@] == (if confirm {
                "false"@
            } else {
                "true"@
            })
            &&& input.contains_key("version"@) && input["version"@] == version
            &&& input.contains_key("build"@) && input["build"@] == build.id
            &&& input.contains_key("metadata_dir"@) && input["metadata_dir"@] == metadata_dir
        }),
{
    reveal_strlit("dry_run");
    reveal_strlit("version");
    reveal_strlit("build");
    reveal_strlit("metadata_dir");
    assert("dry_run"@[0] == 'd' && "version"@[0] == 'v');
    assert("dry_run"@.len() == 7 && "build"@.len() == 5 && "metadata_dir"@.len() == 12);
    assert("dry_run"@ != "version"@ && "version"@.len() == 7);
    assert("build"@ != "dry_run"@ && "build"@ != "metadata_dir"@ && "build"@ != "version"@);
    assert("metadata_dir"@ != "dry_run"@ && "metadata_dir"@ != "version"@);
}

/// The apps that have been loaded.
pub open spec fn apps_of(page: AppStoreConnectPageView) -> Seq<AscAppSummaryView> {
    match page.apps_state {
        LoadStateView::Ready(apps) => apps,
        _ => Seq::empty(),
    }
}

/// The builds that have been loaded.
pub open spec fn builds_of(page: AppStoreConnectPageView) -> Seq<AscBuildSummaryView> {
    match page.builds_state {
        LoadStateView::Ready(builds) => builds,
        _ => Seq::empty(),
    }
}

/// The app that is selected.
pub open spec fn selected_app_of(page: AppStoreConnectPageView) -> Option<AscAppSummaryView> {
    selected_of::<AscAppSummary>(apps_of(page), page.selected_app_id)
}

/// The build that is selected.
pub open spec fn selected_build_of(page: AppStoreConnectPageView) -> Option<AscBuildSummaryView> {
    selected_of::<AscBuildSummary>(builds_of(page), page.selected_build_id)
}

/// The page before anything was loaded.
pub open spec fn new_page() -> AppStoreConnectPageView {
    AppStoreConnectPageView {
        auth_state: LoadStateView::Loading,
        apps_state: LoadStateView::Loading,
        selected_app_id: None,
        builds_state: LoadStateView::Ready(Seq::empty()),
        selected_build_id: None,
    }
}

/// The page while everything is fetched anew.
pub open spec fn refreshed(page: AppStoreConnectPageView) -> AppStoreConnectPageView {
    AppStoreConnectPageView {
        auth_state: LoadStateView::Loading,
        apps_state: LoadStateView::Loading,
        builds_state: LoadStateView::Ready(Seq::empty()),
        selected_build_id: None,
        ..page
    }
}

/// The app that is selected once `apps` have come.
pub open spec fn app_after_refresh(
    page: AppStoreConnectPageView,
    apps: LoadStateView<Seq<AscAppSummaryView>>,
) -> Option<Seq<char>> {
    match apps {
        LoadStateView::Ready(apps) => kept_or_first::<AscAppSummary>(apps, page.selected_app_id),
        _ => None,
    }
}

/// The page once the sign-in and the apps have been fetched.
pub open spec fn refresh_finished(
    page: AppStoreConnectPageView,
    auth: LoadStateView<AscAuthSummaryView>,
    apps: LoadStateView<Seq<AscAppSummaryView>>,
) -> AppStoreConnectPageView {
    AppStoreConnectPageView {
        auth_state: auth,
        apps_state: apps,
        selected_app_id: app_after_refresh(page, apps),
        builds_state: if app_after_refresh(page, apps) is Some {
            LoadStateView::Loading
        } else if apps is Ready {
            page.builds_state
        } else {
            LoadStateView::Ready(Seq::empty())
        },
        selected_build_id: page.selected_build_id,
    }
}

/// What is asked for to load the builds of an app; nothing for an app that is not loaded.
pub open spec fn builds_fetch(page: AppStoreConnectPageView, app_id: Seq<char>) -> Option<
    ServiceOperationRequestView,
> {
    match first_with_id::<AscAppSummary>(apps_of(page), app_id) {
        Some(app) => Some(builds_request_of(app)),
        None => None,
    }
}

/// The page while the builds of an app are fetched.
pub open spec fn builds_requested(
    page: AppStoreConnectPageView,
    app_id: Seq<char>,
) -> AppStoreConnectPageView {
    if builds_fetch(page, app_id) is Some {
        AppStoreConnectPageView {
            selected_app_id: Some(app_id),
            selected_build_id: None,
            builds_state: LoadStateView::Loading,
            ..page
        }
    } else {
        AppStoreConnectPageView {
            selected_build_id: None,
            builds_state: LoadStateView::Ready(Seq::empty()),
            ..page
        }
    }
}

/// The page once builds have come: the first of them is selected.
pub open spec fn builds_finished(
    page: AppStoreConnectPageView,
    builds: LoadStateView<Seq<AscBuildSummaryView>>,
) -> AppStoreConnectPageView {
    AppStoreConnectPageView {
        builds_state: builds,
        selected_build_id: match builds {
            LoadStateView::Ready(builds) => first_id::<AscBuildSummary>(builds),
            _ => None,
        },
        ..page
    }
}

/// What happens when the user wants to upload a build.
pub open spec fn upload_prompt(
    page: AppStoreConnectPageView,
    kind: ServiceArtifactKind,
) -> UploadPromptView {
    match selected_app_of(page) {
        None => UploadPromptView::Refused {
            message: "Select an App Store Connect app before uploading a build."@,
        },
        Some(app) => match kind {
            ServiceArtifactKind::Ipa => UploadPromptView::AskForFile {
                app,
                prompt: "Select an .ipa file to upload"@,
            },
            ServiceArtifactKind::Pkg => UploadPromptView::AskForFile {
                app,
                prompt: "Select a .pkg file to upload"@,
            },
            ServiceArtifactKind::AppBundle | ServiceArtifactKind::Binary => {
                UploadPromptView::Refused { message: "Only .ipa and .pkg uploads are supported."@ }
            },
        },
    }
}

/// What happens when the user wants to run a release.
pub open spec fn release_prompt(page: AppStoreConnectPageView) -> ReleasePromptView {
    match (selected_app_of(page), selected_build_of(page)) {
        (None, _) => ReleasePromptView::Refused {
            message: "Select an App Store Connect app before running a release."@,
        },
        (Some(_), None) => ReleasePromptView::Refused {
            message: "Select a build before running a release."@,
        },
        (Some(app), Some(build)) => ReleasePromptView::AskForMetadata { app, build },
    }
}

/// Whether the user is signed in, as it is shown.
pub open spec fn auth_text(page: AppStoreConnectPageView) -> StatusTextView {
    match page.auth_state {
        LoadStateView::Loading => StatusTextView {
            headline: "Checking App Store Connect authentication…"@,
            color: Color::Muted,
            detail: None,
        },
        LoadStateView::Error(error) => StatusTextView {
            headline: "App Store Connect authentication check failed"@,
            color: Color::Error,
            detail: Some(error),
        },
        LoadStateView::Ready(summary) => StatusTextView {
            headline: summary.headline,
            color: if summary.healthy {
                Color::Success
            } else {
                Color::Warning
            },
            detail: Some(summary.detail),
        },
    }
}

/// A message in place of a list.
pub open spec fn list_message(text: Seq<char>) -> ListPanelView {
    ListPanelView::Message {
        status: StatusTextView { headline: text, color: Color::Muted, detail: None },
    }
}

/// A failure in place of a list.
pub open spec fn list_failure(text: Seq<char>, error: Seq<char>) -> ListPanelView {
    ListPanelView::Message {
        status: StatusTextView { headline: text, color: Color::Error, detail: Some(error) },
    }
}

/// An app in the list.
pub open spec fn app_entry(app: AscAppSummaryView, selected: Option<Seq<char>>) -> ListEntryView {
    ListEntryView {
        element_id: "asc-app-"@ + app.id,
        id: app.id,
        title: app.name,
        subtitle: app.bundle_id + " · "@ + app.id,
        selected: selected == Some(app.id),
    }
}

/// The list of apps.
pub open spec fn apps_panel(page: AppStoreConnectPageView) -> ListPanelView {
    match page.apps_state {
        LoadStateView::Loading => list_message("Loading apps…"@),
        LoadStateView::Error(error) => list_failure("Could not load apps"@, error),
        LoadStateView::Ready(apps) => if apps.len() == 0 {
            list_message("No apps were returned by App Store Connect"@)
        } else {
            ListPanelView::List {
                entries: apps.map_values(
                    |app: AscAppSummaryView| app_entry(app, page.selected_app_id),
                ),
            }
        },
    }
}

/// What is said of a build below its number.
pub open spec fn build_subtitle(build: AscBuildSummaryView) -> Seq<char> {
    let uploaded = build.processing_state + " · uploaded "@ + build.uploaded_date;
    match build.expiration_date {
        Some(date) => uploaded + " · expires "@ + date,
        None => uploaded,
    }
}

/// A build in the list.
pub open spec fn build_entry(
    build: AscBuildSummaryView,
    selected: Option<Seq<char>>,
) -> ListEntryView {
    ListEntryView {
        element_id: "asc-build-"@ + build.id,
        id: build.id,
        title: "Build "@ + build.build_number,
        subtitle: build_subtitle(build),
        selected: selected == Some(build.id),
    }
}

/// The list of builds.
pub open spec fn builds_panel(page: AppStoreConnectPageView) -> ListPanelView {
    match page.builds_state {
        LoadStateView::Loading => list_message("Loading builds…"@),
        LoadStateView::Error(error) => list_failure("Could not load builds"@, error),
        LoadStateView::Ready(builds) => if page.selected_app_id is None {
            list_message("Select an app to load its builds"@)
        } else if builds.len() == 0 {
            list_message("No builds were returned for the selected app"@)
        } else {
            ListPanelView::List {
                entries: builds.map_values(
                    |build: AscBuildSummaryView| build_entry(build, page.selected_build_id),
                ),
            }
        },
    }
}

/// What the page shows.
pub open spec fn page_model(page: AppStoreConnectPageView) -> PageModelView {
    PageModelView {
        auth: auth_text(page),
        refresh_builds_disabled: selected_app_of(page) is None,
        upload_disabled: selected_app_of(page) is None,
        release_disabled: selected_app_of(page) is None || selected_build_of(page) is None,
        apps: apps_panel(page),
        builds: builds_panel(page),
        selected_app_label: match selected_app_of(page) {
            Some(app) => "Selected app: "@ + app.name + " ("@ + app.bundle_id + ")"@,
            None => "Selected app: none"@,
        },
        selected_build_label: match selected_build_of(page) {
            Some(build) => "Selected build: "@ + build.build_number + " ("@ + build.id + ")"@,
            None => "Selected build: none"@,
        },
    }
}

fn message_panel(text: &str) -> (r: ListPanel)
    ensures
        r.deep_view() == list_message(text@),
{
    ListPanel::Message {
        status: StatusText { headline: text.to_owned(), color: Color::Muted, detail: None },
    }
}

fn failure_panel(text: &str, error: &str) -> (r: ListPanel)
    ensures
        r.deep_view() == list_failure(text@, error@),
{
    ListPanel::Message {
        status: StatusText {
            headline: text.to_owned(),
            color: Color::Error,
            detail: Some(error.to_owned()),
        },
    }
}

impl AppStoreConnectPage {
    /// The page before anything was loaded.
    pub fn new() -> (r: Self)
        ensures
            r.deep_view() == new_page(),
    {
        let builds: Vec<AscBuildSummary> = Vec::new();
        assert(builds.deep_view() =~= Seq::empty());
        AppStoreConnectPage {
            auth_state: LoadState::Loading,
            apps_state: LoadState::Loading,
            selected_app_id: None,
            builds_state: LoadState::Ready(builds),
            selected_build_id: None,
        }
    }

    fn clear_builds(&mut self)
        ensures
            final(self).deep_view() == (AppStoreConnectPageView {
                builds_state: LoadStateView::Ready(Seq::empty()),
                ..old(self).deep_view()
            }),
    {
        let builds: Vec<AscBuildSummary> = Vec::new();
        assert(builds.deep_view() =~= Seq::empty());
        self.builds_state = LoadState::Ready(builds);
    }

    /// Forgets what was loaded, to fetch it anew.
    pub fn refresh_overview(&mut self)
        ensures
            final(self).deep_view() == refreshed(old(self).deep_view()),
    {
        self.auth_state = LoadState::Loading;
        self.apps_state = LoadState::Loading;
        self.clear_builds();
        self.selected_build_id = None;
    }

    /// Takes in whether the user is signed in, and their apps. Gives back the app whose builds are
    /// to be loaded next.
    pub fn finish_overview(
        &mut self,
        auth: Result<AscAuthSummary, String>,
        apps: Result<Vec<AscAppSummary>, String>,
    ) -> (r: Option<String>)
        ensures
            final(self).deep_view() == refresh_finished(
                old(self).deep_view(),
                fetched(auth),
                fetched(apps),
            ),
            r.deep_view() == app_after_refresh(old(self).deep_view(), fetched(apps)),
    {
        self.auth_state = LoadState::from_result(auth);
        let next = match &apps {
            Ok(apps) => keep_or_first(apps, &self.selected_app_id),
            Err(_) => None,
        };
        if next.is_some() {
            self.builds_state = LoadState::Loading;
        } else if apps.is_err() {
            self.clear_builds();
        }
        self.apps_state = LoadState::from_result(apps);
        self.selected_app_id = opt_clone(&next);
        next
    }

    /// Selects an app and starts to load its builds.
    pub fn load_builds_for_app(&mut self, app_id: String) -> (r: Option<ServiceOperationRequest>)
        ensures
            final(self).deep_view() == builds_requested(old(self).deep_view(), app_id@),
            r.deep_view() == builds_fetch(old(self).deep_view(), app_id@),
    {
        let request = match self.find_app(app_id.as_str()) {
            Some(app) => builds_request(app),
            None => {
                self.clear_builds();
                self.selected_build_id = None;
                return None;
            },
        };
        self.selected_app_id = Some(app_id);
        self.selected_build_id = None;
        self.builds_state = LoadState::Loading;
        Some(request)
    }

    fn find_app(&self, app_id: &str) -> (r: Option<&AscAppSummary>)
        ensures
            match r {
                Some(app) => first_with_id::<AscAppSummary>(apps_of(self.deep_view()), app_id@)
                    == Some(app.deep_view()),
                None => first_with_id::<AscAppSummary>(
                    apps_of(self.deep_view()),
                    app_id@,
                ) is None,
            },
    {
        match &self.apps_state {
            LoadState::Ready(apps) => find_by_id(apps, app_id),
            _ => None,
        }
    }

    /// Takes in the builds that have come.
    pub fn finish_builds(&mut self, builds: Result<Vec<AscBuildSummary>, String>)
        ensures
            final(self).deep_view() == builds_finished(old(self).deep_view(), fetched(builds)),
    {
        self.selected_build_id = match &builds {
            Ok(builds) => id_of_first(builds),
            Err(_) => None,
        };
        self.builds_state = LoadState::from_result(builds);
    }

    /// Starts to load the builds of the selected app anew.
    pub fn refresh_builds(&mut self) -> (r: Option<ServiceOperationRequest>)
        ensures
            match old(self).deep_view().selected_app_id {
                Some(app_id) => {
                    &&& final(self).deep_view() == builds_requested(old(self).deep_view(), app_id)
                    &&& r.deep_view() == builds_fetch(old(self).deep_view(), app_id)
                },
                None => final(self).deep_view() == old(self).deep_view() && r is None,
            },
    {
        match opt_clone(&self.selected_app_id) {
            Some(app_id) => self.load_builds_for_app(app_id),
            None => None,
        }
    }

    /// Selects an app and starts to load its builds, unless it is selected already.
    pub fn select_app(&mut self, app_id: String) -> (r: Option<ServiceOperationRequest>)
        ensures
            old(self).deep_view().selected_app_id == Some(app_id@) ==> final(self).deep_view()
                == old(self).deep_view() && r is None,
            old(self).deep_view().selected_app_id != Some(app_id@) ==> final(self).deep_view()
                == builds_requested(old(self).deep_view(), app_id@) && r.deep_view()
                == builds_fetch(old(self).deep_view(), app_id@),
    {
        if opt_is(&self.selected_app_id, app_id.as_str()) {
            return None;
        }
        self.load_builds_for_app(app_id)
    }

    /// Selects a build.
    pub fn select_build(&mut self, build_id: String)
        ensures
            final(self).deep_view() == (AppStoreConnectPageView {
                selected_build_id: Some(build_id@),
                ..old(self).deep_view()
            }),
    {
        self.selected_build_id = Some(build_id);
    }

    /// Asks for a file to upload, or says why none can be uploaded.
    pub fn choose_upload_artifact(&self, artifact_kind: ServiceArtifactKind) -> (r: UploadPrompt)
        ensures
            r.deep_view() == upload_prompt(self.deep_view(), artifact_kind),
    {
        let app = match self.selected_app() {
            Some(app) => app,
            None => {
                return UploadPrompt::Refused {
                    message: "Select an App Store Connect app before uploading a build.".to_owned(),
                };
            },
        };
        match artifact_kind {
            ServiceArtifactKind::Ipa => UploadPrompt::AskForFile {
                app,
                prompt: "Select an .ipa file to upload".to_owned(),
            },
            ServiceArtifactKind::Pkg => UploadPrompt::AskForFile {
                app,
                prompt: "Select a .pkg file to upload".to_owned(),
            },
            ServiceArtifactKind::AppBundle | ServiceArtifactKind::Binary => UploadPrompt::Refused {
                message: "Only .ipa and .pkg uploads are supported.".to_owned(),
            },
        }
    }

    /// Asks for the metadata of a release, or says why none can be run.
    pub fn choose_metadata_directory(&self) -> (r: ReleasePrompt)
        ensures
            r.deep_view() == release_prompt(self.deep_view()),
    {
        let app = match self.selected_app() {
            Some(app) => app,
            None => {
                return ReleasePrompt::Refused {
                    message: "Select an App Store Connect app before running a release.".to_owned(),
                };
            },
        };
        match self.selected_build() {
            Some(build) => ReleasePrompt::AskForMetadata { app, build },
            None => ReleasePrompt::Refused {
                message: "Select a build before running a release.".to_owned(),
            },
        }
    }

    /// The app that is selected.
    pub fn selected_app(&self) -> (r: Option<AscAppSummary>)
        ensures
            r.deep_view() == selected_app_of(self.deep_view()),
    {
        match &self.selected_app_id {
            Some(app_id) => match self.find_app(app_id.as_str()) {
                Some(app) => Some(app.clone()),
                None => None,
            },
            None => None,
        }
    }

    /// The build that is selected.
    pub fn selected_build(&self) -> (r: Option<AscBuildSummary>)
        ensures
            r.deep_view() == selected_build_of(self.deep_view()),
    {
        match &self.builds_state {
            LoadState::Ready(builds) => match find_selected(builds, &self.selected_build_id) {
                Some(build) => Some(build.clone()),
                None => None,
            },
            _ => None,
        }
    }

    /// Whether the user is signed in, as it is shown.
    pub fn render_auth_status(&self) -> (r: StatusText)
        ensures
            r.deep_view() == auth_text(self.deep_view()),
    {
        match &self.auth_state {
            LoadState::Loading => StatusText {
                headline: "Checking App Store Connect authentication…".to_owned(),
                color: Color::Muted,
                detail: None,
            },
            LoadState::Error(error) => StatusText {
                headline: "App Store Connect authentication check failed".to_owned(),
                color: Color::Error,
                detail: Some(error.clone()),
            },
            LoadState::Ready(summary) => StatusText {
                headline: summary.headline.clone(),
                color: if summary.healthy {
                    Color::Success
                } else {
                    Color::Warning
                },
                detail: Some(summary.detail.clone()),
            },
        }
    }

    /// The list of apps.
    pub fn render_apps_panel(&self) -> (r: ListPanel)
        ensures
            r.deep_view() == apps_panel(self.deep_view()),
    {
        match &self.apps_state {
            LoadState::Loading => message_panel("Loading apps…"),
            LoadState::Error(error) => failure_panel("Could not load apps", error.as_str()),
            LoadState::Ready(apps) => {
                if apps.len() == 0 {
                    return message_panel("No apps were returned by App Store Connect");
                }
                let ghost selected = self.deep_view().selected_app_id;
                let mut entries: Vec<ListEntry> = Vec::new();
                let mut i: usize = 0;
                while i < apps.len()
                    invariant
                        i <= apps@.len(),
                        entries@.len() == i,
                        selected == self.deep_view().selected_app_id,
                        forall|j: int|
                            0 <= j < i ==> (#[trigger] entries@[j]).deep_view() == app_entry(
                                apps@[j].deep_view(),
                                selected,
                            ),
                    decreases apps@.len() - i,
                {
                    let app = &apps[i];
                    entries.push(
                        ListEntry {
                            element_id: cat2("asc-app-", app.id.as_str()),
                            id: app.id.clone(),
                            title: app.name.clone(),
                            subtitle: cat3(app.bundle_id.as_str(), " · ", app.id.as_str()),
                            selected: opt_is(&self.selected_app_id, app.id.as_str()),
                        },
                    );
                    i = i + 1;
                }
                assert(entries.deep_view() =~= apps.deep_view().map_values(
                    |app: AscAppSummaryView| app_entry(app, selected),
                ));
                ListPanel::List { entries }
            },
        }
    }

    fn subtitle(build: &AscBuildSummary) -> (r: String)
        ensures
            r@ == build_subtitle(build.deep_view()),
    {
        let mut r = cat3(
            build.processing_state.as_str(),
            " · uploaded ",
            build.uploaded_date.as_str(),
        );
        if let Some(date) = &build.expiration_date {
            r.append(" · expires ");
            r.append(date.as_str());
        }
        r
    }

    /// The list of builds.
    pub fn render_builds_panel(&self) -> (r: ListPanel)
        ensures
            r.deep_view() == builds_panel(self.deep_view()),
    {
        match &self.builds_state {
            LoadState::Loading => message_panel("Loading builds…"),
            LoadState::Error(error) => failure_panel("Could not load builds", error.as_str()),
            LoadState::Ready(builds) => {
                if self.selected_app_id.is_none() {
                    return message_panel("Select an app to load its builds");
                }
                if builds.len() == 0 {
                    return message_panel("No builds were returned for the selected app");
                }
                let ghost selected = self.deep_view().selected_build_id;
                let mut entries: Vec<ListEntry> = Vec::new();
                let mut i: usize = 0;
                while i < builds.len()
                    invariant
                        i <= builds@.len(),
                        entries@.len() == i,
                        selected == self.deep_view().selected_build_id,
                        forall|j: int|
                            0 <= j < i ==> (#[trigger] entries@[j]).deep_view() == build_entry(
                                builds@[j].deep_view(),
                                selected,
                            ),
                    decreases builds@.len() - i,
                {
                    let build = &builds[i];
                    entries.push(
                        ListEntry {
                            element_id: cat2("asc-build-", build.id.as_str()),
                            id: build.id.clone(),
                            title: cat2("Build ", build.build_number.as_str()),
                            subtitle: Self::subtitle(build),
                            selected: opt_is(&self.selected_build_id, build.id.as_str()),
                        },
                    );
                    i = i + 1;
                }
                assert(entries.deep_view() =~= builds.deep_view().map_values(
                    |build: AscBuildSummaryView| build_entry(build, selected),
                ));
                ListPanel::List { entries }
            },
        }
    }

    /// What the page shows.
    pub fn render(&self) -> (r: PageModel)
        ensures
            r.deep_view() == page_model(self.deep_view()),
    {
        let selected_app = self.selected_app();
        let selected_build = self.selected_build();
        let selected_app_label = match &selected_app {
            Some(app) => cat5(
                "Selected app: ",
                app.name.as_str(),
                " (",
                app.bundle_id.as_str(),
                ")",
            ),
            None => "Selected app: none".to_owned(),
        };
        let selected_build_label = match &selected_build {
            Some(build) => cat5(
                "Selected build: ",
                build.build_number.as_str(),
                " (",
                build.id.as_str(),
                ")",
            ),
            None => "Selected build: none".to_owned(),
        };
        PageModel {
            auth: self.render_auth_status(),
            refresh_builds_disabled: selected_app.is_none(),
            upload_disabled: selected_app.is_none(),
            release_disabled: selected_app.is_none() || selected_build.is_none(),
            apps: self.render_apps_panel(),
            builds: self.render_builds_panel(),
            selected_app_label,
            selected_build_label,
        }
    }
}

/// What a button offers can be done: where it is not greyed out, the builds are fetched, a file is
/// asked for, the metadata is asked for; and where it is, the user would be refused.
pub proof fn lemma_buttons_offer_what_can_be_done(
    page: AppStoreConnectPageView,
    kind: ServiceArtifactKind,
)
    ensures
        !page_model(page).refresh_builds_disabled ==> builds_fetch(
            page,
            page.selected_app_id.unwrap(),
        ) is Some,
        kind == ServiceArtifactKind::Ipa || kind == ServiceArtifactKind::Pkg ==> (page_model(
            page,
        ).upload_disabled <==> upload_prompt(page, kind) is Refused),
        kind == ServiceArtifactKind::AppBundle || kind == ServiceArtifactKind::Binary
            ==> upload_prompt(page, kind) is Refused,
        page_model(page).release_disabled <==> release_prompt(page) is Refused,
{
}

/// Once builds have come, the first of them is selected; there is none exactly where none came.
pub proof fn lemma_first_build_is_selected(
    page: AppStoreConnectPageView,
    builds: LoadStateView<Seq<AscBuildSummaryView>>,
)
    ensures
        ({
            let after = builds_finished(page, builds);
            &&& builds_of(after).len() > 0 ==> selected_build_of(after) is Some
                && selected_build_of(after).unwrap().id == builds_of(after)[0].id
            &&& builds_of(after).len() == 0 ==> selected_build_of(after) is None
        }),
{
    let after = builds_finished(page, builds);
    if builds_of(after).len() > 0 {
        lemma_member_has_id::<AscBuildSummary>(builds_of(after), builds_of(after)[0]);
        lemma_first_with_id::<AscBuildSummary>(builds_of(after), builds_of(after)[0].id);
    }
}

/// No release is offered while the builds of another app are fetched.
pub proof fn lemma_no_release_while_builds_load(page: AppStoreConnectPageView, app_id: Seq<char>)
    ensures
        release_prompt(builds_requested(page, app_id)) is Refused,
        release_prompt(refreshed(page)) is Refused,
{
}

/// A file is uploaded only where it is an artifact of the kind that was asked for.
pub proof fn lemma_only_matching_files_are_uploaded(
    app: AscAppSummaryView,
    kind: ServiceArtifactKind,
    path: Seq<char>,
    platform: Platform,
)
    ensures
        upload_of(app, kind, path, platform) is Run <==> matches_kind(path, kind, platform),
        upload_of(app, kind, path, platform) matches UploadView::Run { operation }
            ==> operation.request.artifact == Some(ServiceArtifactRefView { kind, path })
            && operation.request.resource == Some(app_resource(app)),
{
}

} // verus!
