//! What is read out of the reports of App Store Connect, and how it is written out.

use crate::appearance::Color;
use crate::asc_apps::{apps_of_records, apps_request, apps_sorted, of_rank};
use crate::asc_apps::{stable_rearrangement, AscAppRecordView, AscAppSummaryView};
use crate::asc_auth::{auth_status_request_of, auth_summary_of, marked_default};
use crate::asc_auth::{AscAuthStatusResponseView, AscCredentialView};
use crate::asc_builds::{build_rows, builds_page_request_of, capitalized_words, date_label};
use crate::asc_builds::{embedded_state_label, no_builds, page_of_response, platform_label};
use crate::asc_builds::{release_type_label, state_color, state_label, status_lines, status_summary};
use crate::asc_builds::{version_under, AscBuildSummaryView, AscBuildsResponseView};
use crate::asc_builds::{lemma_words_add, AscPreReleaseVersionRecordView};
use crate::text::{ascii_lower, ascii_upper, contains_text, is_blank, lowercased};
use crate::text::{lemma_split_at, lemma_split_whole};
use crate::text::{lemma_trimmed_empty_iff_blank, split_of, text_le, trimmed, uppercased};
use crate::text_laws::{lemma_joined, lemma_prefix, lemma_split_once};
use vstd::prelude::*;

verus! {

/// Whether the user is signed in, and their apps, are asked of App Store Connect, about nothing in
/// particular; the apps are asked for to the last.
pub proof fn lemma_overview_is_asked_for()
    ensures
        auth_status_request_of().provider_id == "app-store-connect"@,
        auth_status_request_of().operation == "auth_status"@,
        auth_status_request_of().resource is None,
        auth_status_request_of().artifact is None,
        auth_status_request_of().input == Map::<Seq<char>, Seq<char>>::empty(),
        apps_request().provider_id == "app-store-connect"@,
        apps_request().operation == "list_apps"@,
        apps_request().resource is None,
        apps_request().artifact is None,
        apps_request().input == Map::<Seq<char>, Seq<char>>::empty().insert("paginate"@, "true"@),
{
}

/// Each app says what its record says.
pub proof fn lemma_app_says_what_its_record_says(records: Seq<AscAppRecordView>, i: int)
    requires
        0 <= i < records.len(),
    ensures
        ({
            let apps = apps_of_records(records);
            &&& apps.len() == records.len()
            &&& apps[i].id == records[i].id
            &&& apps[i].name == records[i].attributes.name
            &&& apps[i].bundle_id == records[i].attributes.bundle_id
            &&& apps[i].sku == records[i].attributes.sku
            &&& apps[i].primary_locale == records[i].attributes.primary_locale
        }),
{
}

/// Sorted apps stand in the order of their names, and where these agree in that of their bundle
/// identifiers.
pub proof fn lemma_apps_stand_by_name(apps: Seq<AscAppSummaryView>, i: int, j: int)
    requires
        apps_sorted(apps),
        0 <= i < j < apps.len(),
    ensures
        apps[i].name != apps[j].name ==> text_le(apps[i].name, apps[j].name),
        apps[i].name == apps[j].name ==> text_le(apps[i].bundle_id, apps[j].bundle_id),
{
}

proof fn lemma_count_of_rank(apps: Seq<AscAppSummaryView>, app: AscAppSummaryView)
    ensures
        apps.to_multiset().count(app) == of_rank(apps, app).to_multiset().count(app),
    decreases apps.len(),
{
    broadcast use vstd::seq_lib::group_to_multiset_ensures;

    reveal(Seq::filter);
    if apps.len() > 0 {
        let rest = apps.drop_last();
        lemma_count_of_rank(rest, app);
        assert(apps =~= rest.push(apps.last()));
        if of_rank(apps, app) != of_rank(rest, app) {
            assert(of_rank(apps, app) =~= of_rank(rest, app).push(apps.last()));
        }
    } else {
        assert(of_rank(apps, app) =~= apps);
    }
}

/// Sorting neither loses an app nor makes one up, and leaves those that agree in name and bundle
/// identifier in the order in which they were listed.
pub proof fn lemma_sorting_keeps_the_apps(
    listed: Seq<AscAppSummaryView>,
    sorted: Seq<AscAppSummaryView>,
    name: Seq<char>,
    bundle_id: Seq<char>,
)
    requires
        stable_rearrangement(listed, sorted),
    ensures
        sorted.to_multiset() == listed.to_multiset(),
        sorted.len() == listed.len(),
        sorted.filter(|app: AscAppSummaryView| app.name == name && app.bundle_id == bundle_id)
            == listed.filter(
            |app: AscAppSummaryView| app.name == name && app.bundle_id == bundle_id,
        ),
{
    broadcast use vstd::seq_lib::group_to_multiset_ensures;

    assert forall|app: AscAppSummaryView| #[trigger]
        sorted.to_multiset().count(app) == listed.to_multiset().count(app) by {
        lemma_count_of_rank(sorted, app);
        lemma_count_of_rank(listed, app);
        assert(of_rank(sorted, app) == of_rank(listed, app));
    }
    assert(sorted.to_multiset() =~= listed.to_multiset());
    assert(sorted.len() == sorted.to_multiset().len());
    assert(listed.len() == listed.to_multiset().len());
    let key = AscAppSummaryView {
        id: Seq::empty(),
        name,
        bundle_id,
        sku: Seq::empty(),
        primary_locale: None,
    };
    assert(of_rank(sorted, key) == of_rank(listed, key));
    let plain = |app: AscAppSummaryView| app.name == name && app.bundle_id == bundle_id;
    lemma_same_filter(sorted, plain, key);
    lemma_same_filter(listed, plain, key);
}

proof fn lemma_same_filter(
    apps: Seq<AscAppSummaryView>,
    plain: spec_fn(AscAppSummaryView) -> bool,
    key: AscAppSummaryView,
)
    requires
        forall|app: AscAppSummaryView| #[trigger]
            plain(app) == (app.name == key.name && app.bundle_id == key.bundle_id),
    ensures
        apps.filter(plain) == of_rank(apps, key),
    decreases apps.len(),
{
    reveal(Seq::filter);
    if apps.len() > 0 {
        lemma_same_filter(apps.drop_last(), plain, key);
        assert(plain(apps.last()) == (apps.last().name == key.name && apps.last().bundle_id
            == key.bundle_id));
    }
}

/// The credential at `k` is the one that is used: the first that is marked as the default, or the
/// first of all where none is.
pub open spec fn is_used(credentials: Seq<AscCredentialView>, k: int) -> bool {
    &&& 0 <= k < credentials.len()
    &&& credentials[k].is_default ==> forall|j: int|
        0 <= j < k ==> !(#[trigger] credentials[j]).is_default
    &&& !credentials[k].is_default ==> k == 0 && forall|j: int|
        0 <= j < credentials.len() ==> !(#[trigger] credentials[j]).is_default
}

proof fn lemma_marked_default(credentials: Seq<AscCredentialView>, k: int)
    requires
        0 <= k <= credentials.len(),
        forall|j: int| 0 <= j < k ==> !(#[trigger] credentials[j]).is_default,
        k < credentials.len() ==> credentials[k].is_default,
    ensures
        k < credentials.len() ==> marked_default(credentials) == Some(credentials[k]),
        k == credentials.len() ==> marked_default(credentials) is None,
    decreases credentials.len(),
{
    if k > 0 {
        let rest = credentials.drop_first();
        assert(!credentials[0].is_default);
        assert forall|j: int| 0 <= j < k - 1 implies !(#[trigger] rest[j]).is_default by {
            assert(rest[j] == credentials[j + 1]);
        }
        lemma_marked_default(rest, k - 1);
    }
}

/// What is said of the sign-in is said of the credential that is used: it is well exactly where that
/// credential was found to work, and the error that came of trying it goes before any other detail.
pub proof fn lemma_sign_in_is_that_of_used_credential(response: AscAuthStatusResponseView, k: int)
    requires
        is_used(response.credentials, k),
    ensures
        ({
            let credential = response.credentials[k];
            let summary = auth_summary_of(response);
            &&& summary.authenticated
            &&& summary.healthy <==> (credential.validation matches Some(found) && lowercased(found)
                == "works"@)
            &&& summary.healthy ==> summary.headline == "Authentication validated"@
            &&& !summary.healthy ==> summary.headline == "Authentication status: "@ + (
            match credential.validation {
                Some(found) => found,
                None => "unknown"@,
            })
            &&& (credential.validation_error matches Some(error) ==> summary.detail == error)
            &&& credential.validation_error is None ==> (
            credential.validation_detail matches Some(detail) ==> summary.detail == detail)
            &&& credential.validation_error is None && credential.validation_detail is None
                ==> summary.detail == "Default credential: "@ + credential.name + " in "@
                + response.storage_backend
        }),
{
    reveal_strlit("works");
    reveal_strlit("unknown");
    assert(lowercased("works"@) =~= "works"@);
    assert(lowercased("unknown"@)[0] == 'u');
    assert("works"@[0] == 'w');
    if response.credentials[k].is_default {
        lemma_marked_default(response.credentials, k);
    } else {
        lemma_marked_default(response.credentials, response.credentials.len() as int);
    }
}

/// Without a credential the user is not signed in, and is told where none was found.
pub proof fn lemma_no_credential_is_no_sign_in(response: AscAuthStatusResponseView)
    requires
        response.credentials.len() == 0,
    ensures
        ({
            let summary = auth_summary_of(response);
            &&& !summary.authenticated && !summary.healthy
            &&& summary.headline == "Not authenticated"@
            &&& summary.detail == "No App Store Connect credentials are stored in "@
                + response.storage_backend + "."@
        }),
{
}

/// Every warning of the report is passed on, in order, and the note on the environment behind them
/// where it says anything.
pub proof fn lemma_warnings_are_passed_on(response: AscAuthStatusResponseView)
    ensures
        ({
            let warnings = match response.warnings {
                Some(warnings) => warnings,
                None => Seq::empty(),
            };
            auth_summary_of(response).warnings == (match response.environment_note {
                Some(note) => if is_blank(note) {
                    warnings
                } else {
                    warnings.push(note)
                },
                None => warnings,
            })
        }),
{
    if let Some(note) = response.environment_note {
        lemma_trimmed_empty_iff_blank(note);
    }
}

/// The page of builds that is asked for is one of the app's: the newest builds, or the page that a
/// listing named.
pub proof fn lemma_page_is_asked_of_the_app(app: AscAppSummaryView, url: Seq<char>)
    ensures
        ({
            let first = builds_page_request_of(app, None);
            let next = builds_page_request_of(app, Some(url));
            &&& first.provider_id == "app-store-connect"@ && next.provider_id
                == "app-store-connect"@
            &&& first.operation == "list_builds"@ && next.operation == "list_builds"@
            &&& first.artifact is None && next.artifact is None
            &&& first.resource == next.resource
            &&& (next.resource matches Some(r) && r.provider_id == "app-store-connect"@ && r.kind
                == "app"@ && r.external_id == app.id && r.label == app.name)
            &&& next.input == Map::<Seq<char>, Seq<char>>::empty().insert("next"@, url)
            &&& first.input == Map::<Seq<char>, Seq<char>>::empty().insert("limit"@, "50"@).insert(
                "sort"@,
                "-uploadedDate"@,
            )
        }),
{
}

/// Each build of a page says what its record says.
pub proof fn lemma_build_says_what_its_record_says(response: AscBuildsResponseView, i: int)
    requires
        0 <= i < response.data.len(),
    ensures
        ({
            let build = page_of_response(response).builds[i];
            let record = response.data[i];
            &&& page_of_response(response).builds.len() == response.data.len()
            &&& build.id == record.id
            &&& build.build_number == record.attributes.version
            &&& build.processing_state == record.attributes.processing_state
            &&& build.uploaded_date == record.attributes.uploaded_date
            &&& build.expiration_date == record.attributes.expiration_date
        }),
{
}

proof fn lemma_version_under(
    included: Seq<AscPreReleaseVersionRecordView>,
    id: Seq<char>,
    v: int,
)
    requires
        -1 <= v < included.len(),
        v >= 0 ==> included[v].id == id && included[v].resource_type == "preReleaseVersions"@,
        forall|j: int|
            v < j < included.len() ==> !((#[trigger] included[j]).id == id
                && included[j].resource_type == "preReleaseVersions"@),
    ensures
        v >= 0 ==> version_under(included, id) == Some(included[v].attributes),
        v < 0 ==> version_under(included, id) is None,
    decreases included.len(),
{
    if included.len() > 0 && v < included.len() - 1 {
        let rest = included.drop_last();
        let n = included.len() - 1;
        assert(!(included[n].id == id && included[n].resource_type == "preReleaseVersions"@));
        assert forall|j: int| v < j < rest.len() implies !((#[trigger] rest[j]).id == id
            && rest[j].resource_type == "preReleaseVersions"@) by {
            assert(rest[j] == included[j]);
        }
        lemma_version_under(rest, id, v);
    }
}

/// The version and the platform of a build are those of the prerelease version that it belongs to,
/// of several that the listing carries under one identifier the last. A build that belongs to none,
/// or to one that the listing does not carry, has neither.
pub proof fn lemma_build_has_version_it_belongs_to(
    response: AscBuildsResponseView,
    i: int,
    v: int,
)
    requires
        0 <= i < response.data.len(),
        -1 <= v < response.included.len(),
        v >= 0 ==> response.included[v].resource_type == "preReleaseVersions"@ && (
        response.data[i].relationships.pre_release_version matches Some(relation)
            && relation.data matches Some(version) && version.id == response.included[v].id),
        forall|j: int|
            v < j < response.included.len() && (#[trigger] response.included[j]).resource_type
                == "preReleaseVersions"@ ==> !(
            response.data[i].relationships.pre_release_version matches Some(relation)
                && relation.data matches Some(version) && version.id == response.included[j].id),
    ensures
        ({
            let build = page_of_response(response).builds[i];
            &&& v >= 0 ==> build.marketing_version == Some(
                response.included[v].attributes.version,
            ) && build.platform == Some(response.included[v].attributes.platform)
            &&& v < 0 ==> build.marketing_version is None && build.platform is None
        }),
{
    let relation = response.data[i].relationships.pre_release_version;
    if relation is Some && relation.unwrap().data is Some {
        let id = relation.unwrap().data.unwrap().id;
        assert forall|j: int| v < j < response.included.len() implies !((
        #[trigger] response.included[j]).id == id && response.included[j].resource_type
            == "preReleaseVersions"@) by {}
        lemma_version_under(response.included, id, v);
    }
}

/// A listing goes on where it says, unless it says nothing but whitespace.
pub proof fn lemma_listing_goes_on_where_it_says(response: AscBuildsResponseView)
    ensures
        is_blank(response.links.next) ==> page_of_response(response).next_page_url is None,
        !is_blank(response.links.next) ==> page_of_response(response).next_page_url == Some(
            trimmed(response.links.next),
        ),
        no_builds().builds.len() == 0 && no_builds().next_page_url is None
            && !no_builds().is_loading_more && no_builds().load_more_error is None,
{
    lemma_trimmed_empty_iff_blank(response.links.next);
}

/// A known platform goes by its own name; any other by the given one, with blanks for underscores.
pub proof fn lemma_platform_label(platform: Seq<char>, i: int)
    ensures
        platform_label(None) == "Unknown"@,
        platform_label(Some("IOS"@)) == "iOS"@,
        platform_label(Some("MAC_OS"@)) == "macOS"@,
        platform_label(Some("TV_OS"@)) == "tvOS"@,
        platform_label(Some("VISION_OS"@)) == "visionOS"@,
        platform != "IOS"@ && platform != "MAC_OS"@ && platform != "TV_OS"@ && platform
            != "VISION_OS"@ ==> platform_label(Some(platform)).len() == platform.len() && (0 <= i
            < platform.len() ==> platform_label(Some(platform))[i] == (if platform[i] == '_' {
            ' '
        } else {
            platform[i]
        })),
{
    reveal_strlit("IOS");
    reveal_strlit("MAC_OS");
    reveal_strlit("TV_OS");
    reveal_strlit("VISION_OS");
    assert("IOS"@.len() == 3 && "MAC_OS"@.len() == 6 && "TV_OS"@.len() == 5 && "VISION_OS"@.len()
        == 9);
}

/// The label of a state of one word is that word, capitalized; that of two states set apart by an
/// underscore is their labels with a blank between them.
pub proof fn lemma_label_is_word_by_word(a: Seq<char>, word: Seq<char>)
    requires
        word.len() > 0,
        !word.contains('_'),
        capitalized_words(split_of(a, '_')).len() > 0,
    ensures
        state_label(word).len() == word.len(),
        state_label(word)[0] == ascii_upper(word[0]),
        forall|i: int|
            0 < i < word.len() ==> #[trigger] state_label(word)[i] == ascii_lower(word[i]),
        state_label(a.push('_') + word) == state_label(a) + " "@ + state_label(word),
{
    lemma_split_whole(word, '_');
    lemma_split_at(a, '_', word);
    let one = seq![word];
    let words = capitalized_words(split_of(a, '_'));
    reveal(Seq::filter);
    assert(one.drop_last() =~= Seq::empty());
    let label = seq![ascii_upper(word[0])] + lowercased(word.drop_first());
    assert(capitalized_words(one) =~= seq![label]);
    lemma_words_add(split_of(a, '_'), one);
    lemma_joined(words, label, " "@);
    assert(words + seq![label] =~= words.push(label));
}

/// A timestamp is shown as its day and the hour and minute of it; what carries no time is shown as
/// it is.
pub proof fn lemma_date_label(day: Seq<char>, time: Seq<char>, rest: Seq<char>)
    requires
        !day.contains('T'),
        time.len() == 5,
    ensures
        date_label(day.push('T') + (time + rest)) == day + " "@ + time,
        date_label(day) == day,
{
    lemma_split_once(day, 'T', time + rest);
    lemma_prefix(time, rest, 5);
}

/// A build has been released to where it has a state.
pub proof fn lemma_release_type(build: AscBuildSummaryView)
    ensures
        ({
            let tested = build.testflight_internal_state is Some
                || build.testflight_external_state is Some;
            let sold = build.app_store_version_id is Some;
            &&& tested && sold ==> release_type_label(build) == "TestFlight + App Store"@
            &&& tested && !sold ==> release_type_label(build) == "TestFlight"@
            &&& !tested && sold ==> release_type_label(build) == "App Store"@
            &&& !tested && !sold ==> release_type_label(build) == "Unknown"@
        }),
{
}

/// The states of a build are summed up one behind the other: how far it is processed, and where it
/// has been released to.
pub proof fn lemma_status_summary(build: AscBuildSummaryView)
    ensures
        ({
            let processed = state_label(build.processing_state);
            let dot = " · "@;
            &&& build.testflight_external_state is None && build.app_store_state is None
                ==> status_summary(build) == processed
            &&& (build.testflight_external_state matches Some(tf) ==> build.app_store_state is None
                ==> status_summary(build) == processed + dot + ("TF "@ + state_label(tf)))
            &&& (build.app_store_state matches Some(store)
                ==> build.testflight_external_state is None ==> status_summary(build) == processed
                + dot + ("AS "@ + state_label(store)))
            &&& (build.testflight_external_state matches Some(tf)
                ==> build.app_store_state matches Some(store) ==> status_summary(build)
                == processed + dot + ("TF "@ + state_label(tf)) + dot + ("AS "@ + state_label(
                store,
            )))
        }),
{
    let processed = state_label(build.processing_state);
    let dot = " · "@;
    lemma_joined(Seq::empty(), processed, dot);
    if let Some(tf) = build.testflight_external_state {
        lemma_joined(seq![processed], "TF "@ + state_label(tf), dot);
        if let Some(store) = build.app_store_state {
            lemma_joined(
                seq![processed].push("TF "@ + state_label(tf)),
                "AS "@ + state_label(store),
                dot,
            );
        }
    } else if let Some(store) = build.app_store_state {
        lemma_joined(seq![processed], "AS "@ + state_label(store), dot);
    }
}

/// A label before a state stays as it is, and the state behind it is written out.
pub proof fn lemma_embedded_state(label: Seq<char>, state: Seq<char>)
    requires
        !label.contains(' '),
    ensures
        embedded_state_label(label.push(' ') + state) == label + " "@ + state_label(state),
        embedded_state_label(label) == state_label(label),
{
    lemma_split_once(label, ' ', state);
}

/// What tells of failure is shown as an error, whatever else it tells of; what tells of something
/// under way as a warning, unless it tells of failure; what tells of success as such, unless it
/// tells of either; and the rest without emphasis.
pub proof fn lemma_state_color(state: Seq<char>)
    ensures
        ({
            let told = uppercased(state);
            let failure = contains_text(told, "REJECTED"@) || contains_text(told, "INVALID"@)
                || contains_text(told, "FAILED"@) || contains_text(told, "ERROR"@);
            let progress = contains_text(told, "WAITING"@) || contains_text(told, "IN_REVIEW"@)
                || contains_text(told, "FOR_REVIEW"@) || contains_text(told, "PROCESSING"@)
                || contains_text(told, "PENDING"@) || contains_text(told, "PREPARE"@)
                || contains_text(told, "SUBMITTED"@);
            let success = contains_text(told, "READY"@) || contains_text(told, "VALID"@)
                || contains_text(told, "ACTIVE"@) || contains_text(told, "APPROVED"@)
                || contains_text(told, "TESTING"@);
            &&& state_color(state) == Color::Error <==> failure
            &&& state_color(state) == Color::Warning <==> progress && !failure
            &&& state_color(state) == Color::Success <==> success && !progress && !failure
            &&& state_color(state) == Color::Muted <==> !success && !progress && !failure
        }),
{
}

/// A build has a line for each state that it has: how far it is processed first, then TestFlight,
/// then the App Store, each in its colour.
pub proof fn lemma_status_lines(build: AscBuildSummaryView)
    ensures
        ({
            let lines = status_lines(build);
            let tested: int = if build.testflight_external_state is Some {
                1
            } else {
                0
            };
            let sold: int = if build.app_store_state is Some {
                1
            } else {
                0
            };
            &&& lines.len() == 1 + tested + sold
            &&& lines[0].text == state_label(build.processing_state)
            &&& lines[0].color == state_color(build.processing_state)
            &&& (build.testflight_external_state matches Some(state) ==> lines[1].text
                == embedded_state_label("TestFlight"@ + " "@ + state) && lines[1].color
                == state_color("TestFlight"@ + " "@ + state))
            &&& (build.app_store_state matches Some(state) ==> lines.last().text
                == embedded_state_label("App Store"@ + " "@ + state) && lines.last().color
                == state_color("App Store"@ + " "@ + state))
        }),
{
}

/// The table has a row for each build, in order, every other one shaded and all but the first ruled,
/// that says what the build says.
pub proof fn lemma_rows_show_their_builds(builds: Seq<AscBuildSummaryView>, i: int)
    requires
        0 <= i < builds.len(),
    ensures
        ({
            let row = build_rows(builds)[i];
            let build = builds[i];
            &&& build_rows(builds).len() == builds.len()
            &&& row.shaded <==> i % 2 == 1
            &&& row.ruled <==> i != 0
            &&& row.build_number == build.build_number
            &&& row.version == (match build.marketing_version {
                Some(version) => version,
                None => "Unknown Version"@,
            })
            &&& row.platform == platform_label(build.platform)
            &&& row.release_type == release_type_label(build)
            &&& row.uploaded == date_label(build.uploaded_date)
            &&& (build.expiration_date matches Some(date) ==> row.expires == Some(
                "Expires "@ + date_label(date),
            ))
            &&& build.expiration_date is None ==> row.expires is None
            &&& row.status == status_lines(build)
        }),
{
}

} // verus!
