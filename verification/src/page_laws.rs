//! What the page of App Store Connect asks for, runs and shows, said of what was loaded and chosen.

use crate::appearance::Color;
use crate::asc_apps::{AscAppSummary, AscAppSummaryView};
use crate::asc_page::{auth_summary_of, auth_text, build_of_record, builds_fetch, builds_finished};
use crate::asc_page::{builds_request_of, builds_requested, failure_of, marked_default};
use crate::asc_page::{new_page, page_model, path_choice, refresh_finished, refreshed};
use crate::asc_page::{release_operation, release_prompt, selected_app_of};
use crate::asc_page::{selected_build_of, terminal_task_of, upload_of, upload_prompt};
use crate::asc_page::{version_request_of, AppStoreConnectPageView, AscAuthStatusResponseView};
use crate::asc_page::{AscAuthSummaryView, AscBuildRecordView, AscBuildSummary};
use crate::asc_page::{AscBuildSummaryView, AscCredentialView, ListPanelView, PathChoiceView};
use crate::asc_page::{ReleasePromptView, ServiceCommandPlanView, UploadPromptView, UploadView};
use crate::cef_settings::Platform;
use crate::hub::ServiceArtifactKind;
use crate::load_state::{fetched, LoadStateView};
use crate::lookup::{first_with_id, lemma_choice_is_kept_or_first, lemma_first_is_found};
use crate::lookup::{lemma_first_with_id, lemma_selected_is_first, HasId};
use crate::provider_laws::{asks_about_app, names_app_at, names_no_app};
use crate::text::{is_blank, lemma_trimmed_empty_iff_blank, lowercased, trimmed};
use crate::text_laws::lemma_joined;
use vstd::prelude::*;

verus! {

/// The build at `k` is the first that `id` names.
pub open spec fn names_build_at(
    builds: Seq<AscBuildSummaryView>,
    id: Option<Seq<char>>,
    k: int,
) -> bool {
    &&& 0 <= k < builds.len()
    &&& id == Some(builds[k].id)
    &&& forall|j: int| 0 <= j < k ==> id != Some((#[trigger] builds[j]).id)
}

/// `id` names none of the builds.
pub open spec fn names_no_build(builds: Seq<AscBuildSummaryView>, id: Option<Seq<char>>) -> bool {
    forall|j: int| 0 <= j < builds.len() ==> id != Some((#[trigger] builds[j]).id)
}

/// A release is run for the app that it was asked of, with the build, the version and the metadata
/// that were given, and nothing else; one that is not confirmed is tried out only.
pub proof fn lemma_release_is_run_for_its_app(
    app: AscAppSummaryView,
    build: AscBuildSummaryView,
    version: Seq<char>,
    dir: Seq<char>,
    confirm: bool,
    key: Seq<char>,
)
    ensures
        ({
            let operation = release_operation(app, build, version, dir, confirm);
            let request = operation.request;
            &&& request.operation == "release_run"@
            &&& request.provider_id == "app-store-connect"@
            &&& request.artifact is None
            &&& (request.resource matches Some(r) && r.kind == "app"@ && r.external_id == app.id
                && r.label == app.name && r.provider_id == "app-store-connect"@)
            &&& request.input.contains_key(key) <==> (key == "version"@ || key == "build"@ || key
                == "metadata_dir"@ || key == "dry_run"@)
            &&& request.input["version"@] == version
            &&& request.input["build"@] == build.id
            &&& request.input["metadata_dir"@] == dir
            &&& request.input["dry_run"@] == (if confirm {
                "false"@
            } else {
                "true"@
            })
            &&& confirm ==> operation.operation_id == "release-run-"@ + app.id + "-"@ + build.id
                + "-confirm"@
            &&& !confirm ==> operation.operation_id == "release-run-"@ + app.id + "-"@ + build.id
                + "-dry-run"@
        }),
{
    reveal_strlit("version");
    reveal_strlit("build");
    reveal_strlit("metadata_dir");
    reveal_strlit("dry_run");
    assert("version"@[0] == 'v' && "build"@[0] == 'b' && "metadata_dir"@[0] == 'm' && "dry_run"@[0]
        == 'd');
}

/// A file is uploaded for the app that it was asked of, as the artifact that was asked for, and the
/// upload is waited for.
pub proof fn lemma_upload_is_run_for_its_app(
    app: AscAppSummaryView,
    kind: ServiceArtifactKind,
    path: Seq<char>,
    platform: Platform,
)
    ensures
        upload_of(app, kind, path, platform) matches UploadView::Run { operation } ==> ({
            let request = operation.request;
            &&& request.operation == "upload_build"@
            &&& request.provider_id == "app-store-connect"@
            &&& (request.resource matches Some(r) && r.kind == "app"@ && r.external_id == app.id
                && r.label == app.name && r.provider_id == "app-store-connect"@)
            &&& (request.artifact matches Some(a) && a.kind == kind && a.path == path)
            &&& request.input == Map::<Seq<char>, Seq<char>>::empty().insert("wait"@, "true"@)
            &&& kind == ServiceArtifactKind::Ipa ==> operation.operation_id == "upload-build-"@
                + app.id + "-"@ + "ipa"@
            &&& kind == ServiceArtifactKind::Pkg ==> operation.operation_id == "upload-build-"@
                + app.id + "-"@ + "pkg"@
        }),
        upload_of(app, kind, path, platform) matches UploadView::Refused { message } ==> ({
            let head = "The selected file does not match the expected "@;
            &&& kind == ServiceArtifactKind::Ipa ==> message == head + ".ipa"@ + " artifact."@
            &&& kind == ServiceArtifactKind::Pkg ==> message == head + ".pkg"@ + " artifact."@
            &&& kind == ServiceArtifactKind::AppBundle || kind == ServiceArtifactKind::Binary
                ==> message == head + "supported artifact"@ + " artifact."@
        }),
{
}

/// Builds are asked for of their app, to the last and the newest first; the version of a build is
/// asked for of that build.
pub proof fn lemma_requests_name_what_they_ask_about(
    app: AscAppSummaryView,
    build: AscBuildSummaryView,
)
    ensures
        ({
            let builds = builds_request_of(app);
            let version = version_request_of(build);
            &&& builds.operation == "list_builds"@ && version.operation
                == "build_pre_release_version"@
            &&& builds.provider_id == "app-store-connect"@ && version.provider_id
                == "app-store-connect"@
            &&& builds.artifact is None && version.artifact is None
            &&& asks_about_app(builds.resource, app)
            &&& (version.resource matches Some(r) && r.kind == "build"@ && r.external_id == build.id
                && r.label == build.build_number && r.provider_id == "app-store-connect"@)
            &&& builds.input == Map::<Seq<char>, Seq<char>>::empty().insert(
                "paginate"@,
                "true"@,
            ).insert("sort"@, "-uploadedDate"@)
            &&& version.input == Map::<Seq<char>, Seq<char>>::empty()
        }),
{
}

/// Each build says what its record says.
pub proof fn lemma_build_says_what_its_record_says(record: AscBuildRecordView)
    ensures
        build_of_record(record).id == record.id,
        build_of_record(record).build_number == record.attributes.version,
        build_of_record(record).processing_state == record.attributes.processing_state,
        build_of_record(record).uploaded_date == record.attributes.uploaded_date,
        build_of_record(record).expiration_date == record.attributes.expiration_date,
        build_of_record(record).min_os_version == record.attributes.min_os_version,
{
}

proof fn lemma_marked_default(credentials: Seq<AscCredentialView>, k: int)
    requires
        0 <= k <= credentials.len(),
        forall|j: int| 0 <= j < k ==> !(#[trigger] credentials[j]).is_default,
        k < credentials.len() ==> credentials[k].is_default,
    ensures
        k < credentials.len() ==> marked_default(credentials) == Some(credentials[k]),
        k == credentials.len() ==> marked_default(credentials) is None,
    decreases credentials.len(),
{
    if k > 0 {
        let rest = credentials.drop_first();
        assert(!credentials[0].is_default);
        assert forall|j: int| 0 <= j < k - 1 implies !(#[trigger] rest[j]).is_default by {
            assert(rest[j] == credentials[j + 1]);
        }
        lemma_marked_default(rest, k - 1);
    }
}

/// What is said of the sign-in is said of the first credential that is marked as the default, and of
/// none where none is; it is well exactly where that credential was found to work.
pub proof fn lemma_sign_in_is_that_of_default(response: AscAuthStatusResponseView, k: int)
    requires
        0 <= k <= response.credentials.len(),
        forall|j: int| 0 <= j < k ==> !(#[trigger] response.credentials[j]).is_default,
        k < response.credentials.len() ==> response.credentials[k].is_default,
    ensures
        ({
            let summary = auth_summary_of(response);
            let found = if k < response.credentials.len() {
                response.credentials[k].validation
            } else {
                None
            };
            &&& summary.healthy <==> (found matches Some(found) && lowercased(found) == "works"@)
            &&& summary.healthy ==> summary.headline == "Authentication validated"@ + " via "@
                + response.storage_backend
            &&& !summary.healthy ==> summary.headline == "Authentication status: "@ + (
            match found {
                Some(found) => found,
                None => "unknown"@,
            }) + " via "@ + response.storage_backend
            &&& k < response.credentials.len() ==> summary.detail == "Default credential: "@
                + response.credentials[k].name
            &&& k == response.credentials.len() ==> summary.detail == "Default credential: "@
                + "No default credential"@
        }),
{
    reveal_strlit("works");
    reveal_strlit("unknown");
    assert(lowercased("works"@) =~= "works"@);
    assert(lowercased("unknown"@)[0] == 'u');
    assert("works"@[0] == 'w');
    lemma_marked_default(response.credentials, k);
}

/// Of a command that failed its error output is passed on, or else its output, or else its name.
pub proof fn lemma_failure_is_passed_on(
    command: Seq<char>,
    stdout: Seq<char>,
    stderr: Seq<char>,
)
    ensures
        !is_blank(stderr) ==> failure_of(command, stdout, stderr) == trimmed(stderr),
        is_blank(stderr) && !is_blank(stdout) ==> failure_of(command, stdout, stderr) == trimmed(
            stdout,
        ),
        is_blank(stderr) && is_blank(stdout) ==> failure_of(command, stdout, stderr) == "`"@
            + command + "` exited unsuccessfully"@,
{
    lemma_trimmed_empty_iff_blank(stderr);
    lemma_trimmed_empty_iff_blank(stdout);
}

/// Of the paths that were picked the last is taken; an error is passed on.
pub proof fn lemma_last_path_is_taken(
    paths: Seq<Seq<char>>,
    path: Seq<char>,
    message: Seq<char>,
)
    ensures
        path_choice(Ok(Some(paths.push(path)))) == (PathChoiceView::Path { path }),
        path_choice(Ok(Some(Seq::empty()))) == PathChoiceView::Nothing,
        path_choice(Ok(None)) == PathChoiceView::Nothing,
        path_choice(Err(message)) == (PathChoiceView::Error { message }),
{
}

/// The task runs the command of the plan with its arguments, and shows it as it would be typed.
pub proof fn lemma_task_runs_the_plan(
    operation_id: Seq<char>,
    plan: ServiceCommandPlanView,
    arg: Seq<char>,
    i: int,
)
    ensures
        ({
            let task = terminal_task_of(operation_id, plan);
            let prefix = "service-hub-"@;
            &&& task.command == plan.command
            &&& task.args == plan.args
            &&& task.label == plan.label && task.full_label == plan.label
            &&& task.id.len() == prefix.len() + operation_id.len()
            &&& task.id.take(prefix.len() as int) == prefix
            &&& 0 <= i < operation_id.len() ==> ({
                let c = operation_id[i];
                task.id[prefix.len() + i] == (if '0' <= c <= '9' || 'A' <= c <= 'Z' || 'a' <= c
                    <= 'z' {
                    c
                } else {
                    '-'
                })
            })
            &&& plan.args.len() == 0 ==> task.command_label == plan.command
            &&& terminal_task_of(
                operation_id,
                ServiceCommandPlanView { args: plan.args.push(arg), ..plan },
            ).command_label == task.command_label + " "@ + arg
        }),
{
    let task = terminal_task_of(operation_id, plan);
    assert(task.id.take("service-hub-"@.len() as int) =~= "service-hub-"@);
    lemma_joined(seq![plan.command] + plan.args, arg, " "@);
    lemma_joined(Seq::empty(), plan.command, " "@);
    assert(seq![plan.command] + plan.args.push(arg) =~= (seq![plan.command] + plan.args).push(arg));
    if plan.args.len() == 0 {
        assert(seq![plan.command] + plan.args =~= seq![plan.command]);
    }
}

/// The page starts without a sign-in, apps or a choice, and waits for the first two.
pub proof fn lemma_page_starts_empty(page: AppStoreConnectPageView)
    ensures
        new_page().auth_state is Loading,
        new_page().apps_state is Loading,
        new_page().selected_app_id is None,
        new_page().selected_build_id is None,
        new_page().builds_state == LoadStateView::Ready(Seq::<AscBuildSummaryView>::empty()),
        refreshed(page).auth_state is Loading,
        refreshed(page).apps_state is Loading,
        refreshed(page).builds_state == LoadStateView::Ready(Seq::<AscBuildSummaryView>::empty()),
        refreshed(page).selected_build_id is None,
        refreshed(page).selected_app_id == page.selected_app_id,
{
}

/// What was fetched is there as it came, a failure with its message.
pub proof fn lemma_fetched_as_it_came<T: DeepView>(data: T, message: String)
    ensures
        fetched::<T>(Ok(data)) == LoadStateView::Ready(data.deep_view()),
        fetched::<T>(Err(message)) == LoadStateView::<T::V>::Error(message@),
{
}

/// Once the sign-in and the apps have come they are there as they came. An app that is still there
/// stays selected, the first is where it is not, and the builds of the selected app are waited for.
pub proof fn lemma_overview_comes(
    page: AppStoreConnectPageView,
    auth: LoadStateView<AscAuthSummaryView>,
    apps: Seq<AscAppSummaryView>,
    k: int,
)
    ensures
        ({
            let after = refresh_finished(page, auth, LoadStateView::Ready(apps));
            &&& after.auth_state == auth
            &&& after.apps_state == LoadStateView::Ready(apps)
            &&& after.selected_build_id == page.selected_build_id
            &&& names_app_at(apps, page.selected_app_id, k) ==> after.selected_app_id
                == page.selected_app_id
            &&& names_no_app(apps, page.selected_app_id) && apps.len() > 0 ==> after.selected_app_id
                == Some(apps[0].id)
            &&& apps.len() > 0 ==> after.builds_state is Loading
            &&& apps.len() == 0 ==> after.selected_app_id is None && after.builds_state
                == page.builds_state
        }),
{
    let id = page.selected_app_id;
    lemma_choice_is_kept_or_first::<AscAppSummary>(apps, id);
    if names_app_at(apps, id, k) {
        assert(id == Some(AscAppSummary::view_id(apps[k])));
    }
    if names_no_app(apps, id) {
        assert forall|i: int| 0 <= i < apps.len() implies id != Some(
            AscAppSummary::view_id(#[trigger] apps[i]),
        ) by {
            assert(AscAppSummary::view_id(apps[i]) == apps[i].id);
        }
    }
    if apps.len() > 0 {
        assert(AscAppSummary::view_id(apps[0]) == apps[0].id);
    }
}

/// Where the apps could not be had, none is selected and there are no builds.
pub proof fn lemma_overview_fails(
    page: AppStoreConnectPageView,
    auth: LoadStateView<AscAuthSummaryView>,
    error: Seq<char>,
)
    ensures
        ({
            let after = refresh_finished(page, auth, LoadStateView::Error(error));
            &&& after.auth_state == auth
            &&& after.apps_state == LoadStateView::<Seq<AscAppSummaryView>>::Error(error)
            &&& after.selected_app_id is None
            &&& after.builds_state == LoadStateView::Ready(Seq::<AscBuildSummaryView>::empty())
        }),
{
}

/// The builds of an app are asked for of that app, which is selected while they are fetched.
pub proof fn lemma_builds_are_fetched_of_their_app(
    page: AppStoreConnectPageView,
    apps: Seq<AscAppSummaryView>,
    k: int,
)
    requires
        page.apps_state == LoadStateView::Ready(apps),
        0 <= k < apps.len(),
        forall|j: int| 0 <= j < k ==> (#[trigger] apps[j]).id != apps[k].id,
    ensures
        ({
            let after = builds_requested(page, apps[k].id);
            &&& (builds_fetch(page, apps[k].id) matches Some(request) && request.operation
                == "list_builds"@ && asks_about_app(request.resource, apps[k]))
            &&& after.selected_app_id == Some(apps[k].id)
            &&& after.selected_build_id is None
            &&& after.builds_state is Loading
            &&& after.apps_state == page.apps_state && after.auth_state == page.auth_state
        }),
{
    assert forall|j: int| 0 <= j < k implies AscAppSummary::view_id(#[trigger] apps[j])
        != apps[k].id by {
        assert(AscAppSummary::view_id(apps[j]) == apps[j].id);
    }
    assert(AscAppSummary::view_id(apps[k]) == apps[k].id);
    lemma_first_is_found::<AscAppSummary>(apps, apps[k].id, k);
}

/// Whatever is asked for to load builds names the app that they were asked of; for one that is not
/// loaded nothing is asked for, and the choice of an app stays.
pub proof fn lemma_fetch_names_its_app(page: AppStoreConnectPageView, app_id: Seq<char>)
    ensures
        builds_fetch(page, app_id) matches Some(request) ==> (request.resource matches Some(r)
            && r.kind == "app"@ && r.external_id == app_id),
        builds_fetch(page, app_id) is None ==> builds_requested(page, app_id).selected_app_id
            == page.selected_app_id && builds_requested(page, app_id).builds_state
            == LoadStateView::Ready(Seq::<AscBuildSummaryView>::empty()) && builds_requested(
            page,
            app_id,
        ).selected_build_id is None,
        !(page.apps_state is Ready) ==> builds_fetch(page, app_id) is None,
        page.apps_state matches LoadStateView::Ready(apps) ==> (names_no_app(apps, Some(app_id))
            <==> builds_fetch(page, app_id) is None),
{
    match page.apps_state {
        LoadStateView::Ready(apps) => {
            lemma_first_with_id::<AscAppSummary>(apps, app_id);
            assert forall|i: int| 0 <= i < apps.len() implies AscAppSummary::view_id(
                #[trigger] apps[i],
            ) == apps[i].id by {}
            if let Some(app) = first_with_id::<AscAppSummary>(apps, app_id) {
                assert(AscAppSummary::view_id(app) == app.id);
                let i = choose|i: int| 0 <= i < apps.len() && apps[i] == app;
                assert(apps[i].id == app_id);
            }
        },
        _ => {
            lemma_first_with_id::<AscAppSummary>(Seq::empty(), app_id);
        },
    }
}

/// Builds are there as they came, and the first of them is selected; where none came, none is.
pub proof fn lemma_builds_come(
    page: AppStoreConnectPageView,
    builds: Seq<AscBuildSummaryView>,
    error: Seq<char>,
)
    ensures
        ({
            let after = builds_finished(page, LoadStateView::Ready(builds));
            &&& after.builds_state == LoadStateView::Ready(builds)
            &&& builds.len() > 0 ==> after.selected_build_id == Some(builds[0].id)
            &&& builds.len() == 0 ==> after.selected_build_id is None
            &&& after.auth_state == page.auth_state && after.apps_state == page.apps_state
                && after.selected_app_id == page.selected_app_id
        }),
        ({
            let after = builds_finished(page, LoadStateView::Error(error));
            &&& after.builds_state == LoadStateView::<Seq<AscBuildSummaryView>>::Error(error)
            &&& after.selected_build_id is None
            &&& after.auth_state == page.auth_state && after.apps_state == page.apps_state
                && after.selected_app_id == page.selected_app_id
        }),
{
    if builds.len() > 0 {
        assert(AscBuildSummary::view_id(builds[0]) == builds[0].id);
    }
}

proof fn lemma_app_is_selected(
    page: AppStoreConnectPageView,
    apps: Seq<AscAppSummaryView>,
)
    requires
        page.apps_state == LoadStateView::Ready(apps),
    ensures
        forall|k: int| #[trigger]
            names_app_at(apps, page.selected_app_id, k) ==> selected_app_of(page) == Some(apps[k]),
        names_no_app(apps, page.selected_app_id) ==> selected_app_of(page) is None,
{
    let id = page.selected_app_id;
    let k = lemma_selected_is_first::<AscAppSummary>(apps, id);
    assert forall|i: int| 0 <= i < apps.len() implies AscAppSummary::view_id(#[trigger] apps[i])
        == apps[i].id by {}
    assert forall|m: int| #[trigger] names_app_at(apps, id, m) implies selected_app_of(page)
        == Some(apps[m]) by {
        if k < m {
            assert(id != Some(apps[k].id));
        } else if m < k {
            assert(id != Some(AscAppSummary::view_id(apps[m])));
        }
    }
    if names_no_app(apps, id) && k < apps.len() {
        assert(id != Some(apps[k].id));
    }
}

proof fn lemma_build_is_selected(
    page: AppStoreConnectPageView,
    builds: Seq<AscBuildSummaryView>,
)
    requires
        page.builds_state == LoadStateView::Ready(builds),
    ensures
        forall|k: int| #[trigger]
            names_build_at(builds, page.selected_build_id, k) ==> selected_build_of(page) == Some(
                builds[k],
            ),
        names_no_build(builds, page.selected_build_id) ==> selected_build_of(page) is None,
{
    let id = page.selected_build_id;
    let k = lemma_selected_is_first::<AscBuildSummary>(builds, id);
    assert forall|i: int| 0 <= i < builds.len() implies AscBuildSummary::view_id(
        #[trigger] builds[i],
    ) == builds[i].id by {}
    assert forall|m: int| #[trigger] names_build_at(builds, id, m) implies selected_build_of(page)
        == Some(builds[m]) by {
        if k < m {
            assert(id != Some(builds[k].id));
        } else if m < k {
            assert(id != Some(AscBuildSummary::view_id(builds[m])));
        }
    }
    if names_no_build(builds, id) && k < builds.len() {
        assert(id != Some(builds[k].id));
    }
}

/// A file is asked for to upload for the selected app, and the metadata for the release of the
/// selected build of it.
pub proof fn lemma_prompts_are_for_the_selection(
    page: AppStoreConnectPageView,
    apps: Seq<AscAppSummaryView>,
    builds: Seq<AscBuildSummaryView>,
    k: int,
    b: int,
)
    requires
        page.apps_state == LoadStateView::Ready(apps),
        page.builds_state == LoadStateView::Ready(builds),
        names_app_at(apps, page.selected_app_id, k),
    ensures
        upload_prompt(page, ServiceArtifactKind::Ipa) == (UploadPromptView::AskForFile {
            app: apps[k],
            prompt: "Select an .ipa file to upload"@,
        }),
        upload_prompt(page, ServiceArtifactKind::Pkg) == (UploadPromptView::AskForFile {
            app: apps[k],
            prompt: "Select a .pkg file to upload"@,
        }),
        upload_prompt(page, ServiceArtifactKind::AppBundle) == (UploadPromptView::Refused {
            message: "Only .ipa and .pkg uploads are supported."@,
        }),
        upload_prompt(page, ServiceArtifactKind::Binary) == (UploadPromptView::Refused {
            message: "Only .ipa and .pkg uploads are supported."@,
        }),
        names_build_at(builds, page.selected_build_id, b) ==> release_prompt(page) == (
        ReleasePromptView::AskForMetadata { app: apps[k], build: builds[b] }),
        names_no_build(builds, page.selected_build_id) ==> release_prompt(page) == (
        ReleasePromptView::Refused { message: "Select a build before running a release."@ }),
        page_model(page).selected_app_label == "Selected app: "@ + apps[k].name + " ("@
            + apps[k].bundle_id + ")"@,
        !page_model(page).refresh_builds_disabled,
        !page_model(page).upload_disabled,
        names_build_at(builds, page.selected_build_id, b) ==> page_model(page).selected_build_label
            == "Selected build: "@ + builds[b].build_number + " ("@ + builds[b].id + ")"@
            && !page_model(page).release_disabled,
        names_no_build(builds, page.selected_build_id) ==> page_model(page).selected_build_label
            == "Selected build: none"@ && page_model(page).release_disabled,
{
    lemma_app_is_selected(page, apps);
    lemma_build_is_selected(page, builds);
}

/// Where no app is selected, nothing can be uploaded, released or loaded, and the user is told so.
pub proof fn lemma_no_prompt_without_app(
    page: AppStoreConnectPageView,
    kind: ServiceArtifactKind,
)
    requires
        page.apps_state matches LoadStateView::Ready(apps) ==> names_no_app(
            apps,
            page.selected_app_id,
        ),
    ensures
        upload_prompt(page, kind) == (UploadPromptView::Refused {
            message: "Select an App Store Connect app before uploading a build."@,
        }),
        release_prompt(page) == (ReleasePromptView::Refused {
            message: "Select an App Store Connect app before running a release."@,
        }),
        page_model(page).selected_app_label == "Selected app: none"@,
        page_model(page).refresh_builds_disabled,
        page_model(page).upload_disabled,
        page_model(page).release_disabled,
{
    if let LoadStateView::Ready(apps) = page.apps_state {
        lemma_app_is_selected(page, apps);
    } else {
        lemma_selected_is_first::<AscAppSummary>(Seq::empty(), page.selected_app_id);
    }
}

/// The sign-in is shown as it was found.
pub proof fn lemma_sign_in_shows_as_found(
    page: AppStoreConnectPageView,
    summary: AscAuthSummaryView,
    error: Seq<char>,
)
    ensures
        ({
            let text = auth_text(
                AppStoreConnectPageView { auth_state: LoadStateView::Ready(summary), ..page },
            );
            &&& text.headline == summary.headline && text.detail == Some(summary.detail)
            &&& summary.healthy ==> text.color == Color::Success
            &&& !summary.healthy ==> text.color == Color::Warning
        }),
        ({
            let text = auth_text(
                AppStoreConnectPageView { auth_state: LoadStateView::Error(error), ..page },
            );
            &&& text.headline == "App Store Connect authentication check failed"@ && text.detail
                == Some(error) && text.color == Color::Error
        }),
        ({
            let text = auth_text(
                AppStoreConnectPageView { auth_state: LoadStateView::Loading, ..page },
            );
            &&& text.headline == "Checking App Store Connect authentication…"@ && text.detail
                is None && text.color == Color::Muted
        }),
        page_model(page).auth == auth_text(page),
{
}

/// The list of apps has an entry for each app, in order, by which it is picked, and marks the one
/// that is selected.
pub proof fn lemma_apps_are_listed(
    page: AppStoreConnectPageView,
    apps: Seq<AscAppSummaryView>,
    error: Seq<char>,
    i: int,
)
    ensures
        page.apps_state == LoadStateView::Ready(apps) && 0 <= i < apps.len() ==> (
        page_model(page).apps matches ListPanelView::List { entries } && entries.len() == apps.len()
            && entries[i].id == apps[i].id && entries[i].title == apps[i].name
            && entries[i].subtitle == apps[i].bundle_id + " · "@ + apps[i].id
            && entries[i].element_id == "asc-app-"@ + apps[i].id && entries[i].selected == (
        page.selected_app_id == Some(apps[i].id))),
        page.apps_state == LoadStateView::Ready(Seq::<AscAppSummaryView>::empty()) ==> (page_model(
            page,
        ).apps matches ListPanelView::Message { status } && status.headline
            == "No apps were returned by App Store Connect"@ && status.color == Color::Muted
            && status.detail is None),
        page.apps_state is Loading ==> (page_model(page).apps matches ListPanelView::Message {
            status,
        } && status.headline == "Loading apps…"@ && status.color == Color::Muted && status.detail
            is None),
        page.apps_state == LoadStateView::<Seq<AscAppSummaryView>>::Error(error) ==> (page_model(
            page,
        ).apps matches ListPanelView::Message { status } && status.headline
            == "Could not load apps"@ && status.color == Color::Error && status.detail == Some(
            error,
        )),
{
}

/// The list of builds has an entry for each build of the selected app, in order, by which it is
/// picked, and marks the one that is selected.
pub proof fn lemma_builds_are_listed(
    page: AppStoreConnectPageView,
    builds: Seq<AscBuildSummaryView>,
    error: Seq<char>,
    i: int,
)
    ensures
        page.builds_state == LoadStateView::Ready(builds) && page.selected_app_id is Some && 0 <= i
            < builds.len() ==> (page_model(page).builds matches ListPanelView::List { entries }
            && entries.len() == builds.len() && entries[i].id == builds[i].id && entries[i].title
            == "Build "@ + builds[i].build_number && entries[i].element_id == "asc-build-"@
            + builds[i].id && entries[i].selected == (page.selected_build_id == Some(builds[i].id))
            && (builds[i].expiration_date is None ==> entries[i].subtitle
            == builds[i].processing_state + " · uploaded "@ + builds[i].uploaded_date) && (
        builds[i].expiration_date matches Some(date) ==> entries[i].subtitle
            == builds[i].processing_state + " · uploaded "@ + builds[i].uploaded_date
            + " · expires "@ + date)),
        page.builds_state is Ready && page.selected_app_id is None ==> (page_model(
            page,
        ).builds matches ListPanelView::Message { status } && status.headline
            == "Select an app to load its builds"@ && status.color == Color::Muted && status.detail
            is None),
        page.builds_state == LoadStateView::Ready(Seq::<AscBuildSummaryView>::empty())
            && page.selected_app_id is Some ==> (page_model(
            page,
        ).builds matches ListPanelView::Message { status } && status.headline
            == "No builds were returned for the selected app"@ && status.color == Color::Muted
            && status.detail is None),
        page.builds_state is Loading ==> (page_model(page).builds matches ListPanelView::Message {
            status,
        } && status.headline == "Loading builds…"@ && status.color == Color::Muted && status.detail
            is None),
        page.builds_state == LoadStateView::<Seq<AscBuildSummaryView>>::Error(error) ==> (
        page_model(page).builds matches ListPanelView::Message { status } && status.headline
            == "Could not load builds"@ && status.color == Color::Error && status.detail == Some(
            error,
        )),
{
}

} // verus!
