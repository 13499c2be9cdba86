//! The builds of an App Store Connect app, and how they are shown.

use crate::appearance::Color;
use crate::asc_apps::{AscAppSummary, AscAppSummaryView, APP_STORE_CONNECT_PROVIDER_ID};
use crate::hub::{ServiceOperationRequest, ServiceOperationRequestView};
use crate::hub::{ServiceResourceRef, ServiceResourceRefView};
use crate::input::ServiceInput;
use crate::lookup::HasId;
use crate::text::{contains, contains_text, join, joined, lowercased, opt_clone, prefix, prefix_of};
use crate::text::{replace, replaced, split, split_of, split_once, split_once_of, str_eq};
use crate::text::{ascii_upper, to_lower_from, to_upper, trim, trimmed, uppercased};
use crate::text::{ascii_lower, lemma_ascii_case, lemma_case_change, lemma_joined_holds_no_more};
use crate::text::{lemma_split_at, lemma_split_holds_no_separator, lemma_split_ignores_case};
use vstd::prelude::*;
use vstd::string::*;

verus! {

/// How many builds a page of a listing asks for.
pub const ASC_BUILDS_PAGE_SIZE: &'static str = "50";

/// A build of an app.
#[derive(Debug, PartialEq, Eq)]
pub struct AscBuildSummary {
    pub id: String,
    pub build_number: String,
    pub marketing_version: Option<String>,
    pub platform: Option<String>,
    pub processing_state: String,
    pub uploaded_date: String,
    pub expiration_date: Option<String>,
    pub testflight_internal_state: Option<String>,
    pub testflight_external_state: Option<String>,
    pub app_store_version_id: Option<String>,
    pub app_store_state: Option<String>,
}

/// The value of an [`AscBuildSummary`].
#[verifier::ext_equal]
pub struct AscBuildSummaryView {
    pub id: Seq<char>,
    pub build_number: Seq<char>,
    pub marketing_version: Option<Seq<char>>,
    pub platform: Option<Seq<char>>,
    pub processing_state: Seq<char>,
    pub uploaded_date: Seq<char>,
    pub expiration_date: Option<Seq<char>>,
    pub testflight_internal_state: Option<Seq<char>>,
    pub testflight_external_state: Option<Seq<char>>,
    pub app_store_version_id: Option<Seq<char>>,
    pub app_store_state: Option<Seq<char>>,
}

impl DeepView for AscBuildSummary {
    type V = AscBuildSummaryView;

    open spec fn deep_view(&self) -> AscBuildSummaryView {
        AscBuildSummaryView {
            id: self.id@,
            build_number: self.build_number@,
            marketing_version: self.marketing_version.deep_view(),
            platform: self.platform.deep_view(),
            processing_state: self.processing_state@,
            uploaded_date: self.uploaded_date@,
            expiration_date: self.expiration_date.deep_view(),
            testflight_internal_state: self.testflight_internal_state.deep_view(),
            testflight_external_state: self.testflight_external_state.deep_view(),
            app_store_version_id: self.app_store_version_id.deep_view(),
            app_store_state: self.app_store_state.deep_view(),
        }
    }
}

impl Clone for AscBuildSummary {
    fn clone(&self) -> (r: Self)
        ensures
            r.deep_view() == self.deep_view(),
    {
        AscBuildSummary {
            id: self.id.clone(),
            build_number: self.build_number.clone(),
            marketing_version: opt_clone(&self.marketing_version),
            platform: opt_clone(&self.platform),
            processing_state: self.processing_state.clone(),
            uploaded_date: self.uploaded_date.clone(),
            expiration_date: opt_clone(&self.expiration_date),
            testflight_internal_state: opt_clone(&self.testflight_internal_state),
            testflight_external_state: opt_clone(&self.testflight_external_state),
            app_store_version_id: opt_clone(&self.app_store_version_id),
            app_store_state: opt_clone(&self.app_store_state),
        }
    }
}

impl HasId for AscBuildSummary {
    open spec fn view_id(v: AscBuildSummaryView) -> Seq<char> {
        v.id
    }

    fn id_str(&self) -> (r: &str) {
        self.id.as_str()
    }
}

/// One page of a listing of builds.
#[derive(Debug, PartialEq, Eq)]
pub struct AscBuildPage {
    pub builds: Vec<AscBuildSummary>,
    pub next_page_url: Option<String>,
}

/// The value of an [`AscBuildPage`].
#[verifier::ext_equal]
pub struct AscBuildPageView {
    pub builds: Seq<AscBuildSummaryView>,
    pub next_page_url: Option<Seq<char>>,
}

impl DeepView for AscBuildPage {
    type V = AscBuildPageView;

    open spec fn deep_view(&self) -> AscBuildPageView {
        AscBuildPageView {
            builds: self.builds.deep_view(),
            next_page_url: self.next_page_url.deep_view(),
        }
    }
}

impl Clone for AscBuildPage {
    fn clone(&self) -> (r: Self)
        ensures
            r.deep_view() == self.deep_view(),
    {
        let r = AscBuildPage {
            builds: self.builds.clone(),
            next_page_url: opt_clone(&self.next_page_url),
        };
        assert(r.builds.deep_view() =~= self.builds.deep_view());
        r
    }
}

/// The builds that have been loaded so far.
#[derive(Debug, PartialEq, Eq)]
pub struct AscBuildListState {
    pub builds: Vec<AscBuildSummary>,
    pub next_page_url: Option<String>,
    pub is_loading_more: bool,
    pub load_more_error: Option<String>,
}

/// The value of an [`AscBuildListState`].
#[verifier::ext_equal]
pub struct AscBuildListStateView {
    pub builds: Seq<AscBuildSummaryView>,
    pub next_page_url: Option<Seq<char>>,
    pub is_loading_more: bool,
    pub load_more_error: Option<Seq<char>>,
}

impl DeepView for AscBuildListState {
    type V = AscBuildListStateView;

    open spec fn deep_view(&self) -> AscBuildListStateView {
        AscBuildListStateView {
            builds: self.builds.deep_view(),
            next_page_url: self.next_page_url.deep_view(),
            is_loading_more: self.is_loading_more,
            load_more_error: self.load_more_error.deep_view(),
        }
    }
}

impl Clone for AscBuildListState {
    fn clone(&self) -> (r: Self)
        ensures
            r.deep_view() == self.deep_view(),
    {
        let r = AscBuildListState {
            builds: self.builds.clone(),
            next_page_url: opt_clone(&self.next_page_url),
            is_loading_more: self.is_loading_more,
            load_more_error: opt_clone(&self.load_more_error),
        };
        assert(r.builds.deep_view() =~= self.builds.deep_view());
        r
    }
}

/// The identifier of a related resource.
#[derive(Debug, PartialEq, Eq)]
pub struct AscRelatedResourceIdentifier {
    pub id: String,
}

/// The value of an [`AscRelatedResourceIdentifier`].
#[verifier::ext_equal]
pub struct AscRelatedResourceIdentifierView {
    pub id: Seq<char>,
}

impl DeepView for AscRelatedResourceIdentifier {
    type V = AscRelatedResourceIdentifierView;

    open spec fn deep_view(&self) -> AscRelatedResourceIdentifierView {
        AscRelatedResourceIdentifierView {
            id: self.id@,
        }
    }
}

impl Clone for AscRelatedResourceIdentifier {
    fn clone(&self) -> (r: Self)
        ensures
            r.deep_view() == self.deep_view(),
    {
        AscRelatedResourceIdentifier {
            id: self.id.clone(),
        }
    }
}

/// A relationship of a build.
#[derive(Debug, PartialEq, Eq)]
pub struct AscBuildRelationship {
    pub data: Option<AscRelatedResourceIdentifier>,
}

/// The value of an [`AscBuildRelationship`].
#[verifier::ext_equal]
pub struct AscBuildRelationshipView {
    pub data: Option<AscRelatedResourceIdentifierView>,
}

impl DeepView for AscBuildRelationship {
    type V = AscBuildRelationshipView;

    open spec fn deep_view(&self) -> AscBuildRelationshipView {
        AscBuildRelationshipView {
            data: self.data.deep_view(),
        }
    }
}

impl Clone for AscBuildRelationship {
    fn clone(&self) -> (r: Self)
        ensures
            r.deep_view() == self.deep_view(),
    {
        AscBuildRelationship {
            data: self.data.clone(),
        }
    }
}

/// The relationships of a build.
#[derive(Debug, PartialEq, Eq)]
pub struct AscBuildRelationships {
    pub pre_release_version: Option<AscBuildRelationship>,
}

/// The value of an [`AscBuildRelationships`].
#[verifier::ext_equal]
pub struct AscBuildRelationshipsView {
    pub pre_release_version: Option<AscBuildRelationshipView>,
}

impl DeepView for AscBuildRelationships {
    type V = AscBuildRelationshipsView;

    open spec fn deep_view(&self) -> AscBuildRelationshipsView {
        AscBuildRelationshipsView {
            pre_release_version: self.pre_release_version.deep_view(),
        }
    }
}

impl Clone for AscBuildRelationships {
    fn clone(&self) -> (r: Self)
        ensures
            r.deep_view() == self.deep_view(),
    {
        AscBuildRelationships {
            pre_release_version: self.pre_release_version.clone(),
        }
    }
}

/// What App Store Connect says of a build.
#[derive(Debug, PartialEq, Eq)]
pub struct AscBuildAttributes {
    pub version: String,
    pub uploaded_date: String,
    pub expiration_date: Option<String>,
    pub processing_state: String,
}

/// The value of an [`AscBuildAttributes`].
#[verifier::ext_equal]
pub struct AscBuildAttributesView {
    pub version: Seq<char>,
    pub uploaded_date: Seq<char>,
    pub expiration_date: Option<Seq<char>>,
    pub processing_state: Seq<char>,
}

impl DeepView for AscBuildAttributes {
    type V = AscBuildAttributesView;

    open spec fn deep_view(&self) -> AscBuildAttributesView {
        AscBuildAttributesView {
            version: self.version@,
            uploaded_date: self.uploaded_date@,
            expiration_date: self.expiration_date.deep_view(),
            processing_state: self.processing_state@,
        }
    }
}

impl Clone for AscBuildAttributes {
    fn clone(&self) -> (r: Self)
        ensures
            r.deep_view() == self.deep_view(),
    {
        AscBuildAttributes {
            version: self.version.clone(),
            uploaded_date: self.uploaded_date.clone(),
            expiration_date: opt_clone(&self.expiration_date),
            processing_state: self.processing_state.clone(),
        }
    }
}

/// A build in a listing.
#[derive(Debug, PartialEq, Eq)]
pub struct AscBuildRecord {
    pub id: String,
    pub attributes: AscBuildAttributes,
    pub relationships: AscBuildRelationships,
}

/// The value of an [`AscBuildRecord`].
#[verifier::ext_equal]
pub struct AscBuildRecordView {
    pub id: Seq<char>,
    pub attributes: AscBuildAttributesView,
    pub relationships: AscBuildRelationshipsView,
}

impl DeepView for AscBuildRecord {
    type V = AscBuildRecordView;

    open spec fn deep_view(&self) -> AscBuildRecordView {
        AscBuildRecordView {
            id: self.id@,
            attributes: self.attributes.deep_view(),
            relationships: self.relationships.deep_view(),
        }
    }
}

impl Clone for AscBuildRecord {
    fn clone(&self) -> (r: Self)
        ensures
            r.deep_view() == self.deep_view(),
    {
        AscBuildRecord {
            id: self.id.clone(),
            attributes: self.attributes.clone(),
            relationships: self.relationships.clone(),
        }
    }
}

/// What App Store Connect says of a prerelease version.
#[derive(Debug, PartialEq, Eq)]
pub struct AscPreReleaseVersionAttributes {
    pub version: String,
    pub platform: String,
}

/// The value of an [`AscPreReleaseVersionAttributes`].
#[verifier::ext_equal]
pub struct AscPreReleaseVersionAttributesView {
    pub version: Seq<char>,
    pub platform: Seq<char>,
}

impl DeepView for AscPreReleaseVersionAttributes {
    type V = AscPreReleaseVersionAttributesView;

    open spec fn deep_view(&self) -> AscPreReleaseVersionAttributesView {
        AscPreReleaseVersionAttributesView {
            version: self.version@,
            platform: self.platform@,
        }
    }
}

impl Clone for AscPreReleaseVersionAttributes {
    fn clone(&self) -> (r: Self)
        ensures
            r.deep_view() == self.deep_view(),
    {
        AscPreReleaseVersionAttributes {
            version: self.version.clone(),
            platform: self.platform.clone(),
        }
    }
}

/// A resource that comes along with a listing of builds.
#[derive(Debug, PartialEq, Eq)]
pub struct AscPreReleaseVersionRecord {
    pub resource_type: String,
    pub id: String,
    pub attributes: AscPreReleaseVersionAttributes,
}

/// The value of an [`AscPreReleaseVersionRecord`].
#[verifier::ext_equal]
pub struct AscPreReleaseVersionRecordView {
    pub resource_type: Seq<char>,
    pub id: Seq<char>,
    pub attributes: AscPreReleaseVersionAttributesView,
}

impl DeepView for AscPreReleaseVersionRecord {
    type V = AscPreReleaseVersionRecordView;

    open spec fn deep_view(&self) -> AscPreReleaseVersionRecordView {
        AscPreReleaseVersionRecordView {
            resource_type: self.resource_type@,
            id: self.id@,
            attributes: self.attributes.deep_view(),
        }
    }
}

impl Clone for AscPreReleaseVersionRecord {
    fn clone(&self) -> (r: Self)
        ensures
            r.deep_view() == self.deep_view(),
    {
        AscPreReleaseVersionRecord {
            resource_type: self.resource_type.clone(),
            id: self.id.clone(),
            attributes: self.attributes.clone(),
        }
    }
}

/// Where a listing goes on.
#[derive(Debug, PartialEq, Eq)]
pub struct AscPaginationLinks {
    pub next: String,
}

/// The value of an [`AscPaginationLinks`].
#[verifier::ext_equal]
pub struct AscPaginationLinksView {
    pub next: Seq<char>,
}

impl DeepView for AscPaginationLinks {
    type V = AscPaginationLinksView;

    open spec fn deep_view(&self) -> AscPaginationLinksView {
        AscPaginationLinksView {
            next: self.next@,
        }
    }
}

impl Clone for AscPaginationLinks {
    fn clone(&self) -> (r: Self)
        ensures
            r.deep_view() == self.deep_view(),
    {
        AscPaginationLinks {
            next: self.next.clone(),
        }
    }
}

/// A listing of builds.
#[derive(Debug, PartialEq, Eq)]
pub struct AscBuildsResponse {
    pub data: Vec<AscBuildRecord>,
    pub included: Vec<AscPreReleaseVersionRecord>,
    pub links: AscPaginationLinks,
}

/// The value of an [`AscBuildsResponse`].
#[verifier::ext_equal]
pub struct AscBuildsResponseView {
    pub data: Seq<AscBuildRecordView>,
    pub included: Seq<AscPreReleaseVersionRecordView>,
    pub links: AscPaginationLinksView,
}

impl DeepView for AscBuildsResponse {
    type V = AscBuildsResponseView;

    open spec fn deep_view(&self) -> AscBuildsResponseView {
        AscBuildsResponseView {
            data: self.data.deep_view(),
            included: self.included.deep_view(),
            links: self.links.deep_view(),
        }
    }
}

impl Clone for AscBuildsResponse {
    fn clone(&self) -> (r: Self)
        ensures
            r.deep_view() == self.deep_view(),
    {
        let r = AscBuildsResponse {
            data: self.data.clone(),
            included: self.included.clone(),
            links: self.links.clone(),
        };
        assert(r.data.deep_view() =~= self.data.deep_view());
        assert(r.included.deep_view() =~= self.included.deep_view());
        r
    }
}

/// No builds, and none to come.
pub open spec fn no_builds() -> AscBuildListStateView {
    AscBuildListStateView {
        builds: Seq::empty(),
        next_page_url: None,
        is_loading_more: false,
        load_more_error: None,
    }
}

impl AscBuildListState {
    /// No builds, and none to come.
    pub fn empty() -> (r: Self)
        ensures
            r.deep_view() == no_builds(),
    {
        let r = AscBuildListState {
            builds: Vec::new(),
            next_page_url: None,
            is_loading_more: false,
            load_more_error: None,
        };
        assert(r.builds.deep_view() =~= Seq::<AscBuildSummaryView>::empty());
        r
    }
}

/// The app as a resource of the provider.
pub open spec fn app_resource(app: AscAppSummaryView) -> ServiceResourceRefView {
    ServiceResourceRefView {
        provider_id: APP_STORE_CONNECT_PROVIDER_ID@,
        kind: "app"@,
        external_id: app.id,
        label: app.name,
    }
}

/// The app as a resource of the provider.
pub fn resource_of_app(app: &AscAppSummary) -> (r: ServiceResourceRef)
    ensures
        r.deep_view() == app_resource(app.deep_view()),
{
    ServiceResourceRef {
        provider_id: APP_STORE_CONNECT_PROVIDER_ID.to_owned(),
        kind: "app".to_owned(),
        external_id: app.id.clone(),
        label: app.name.clone(),
    }
}

/// What is asked for to load a page of builds: the page at `next_page_url`, or else the newest
/// builds.
pub open spec fn builds_page_request_of(
    app: AscAppSummaryView,
    next_page_url: Option<Seq<char>>,
) -> ServiceOperationRequestView {
    ServiceOperationRequestView {
        provider_id: APP_STORE_CONNECT_PROVIDER_ID@,
        operation: "list_builds"@,
        resource: Some(app_resource(app)),
        artifact: None,
        input: match next_page_url {
            Some(url) => Map::empty().insert("next"@, url),
            None => Map::empty().insert("limit"@, ASC_BUILDS_PAGE_SIZE@).insert(
                "sort"@,
                "-uploadedDate"@,
            ),
        },
    }
}

/// What is asked for to load a page of builds.
pub fn builds_page_request(app: &AscAppSummary, next_page_url: Option<String>) -> (r:
    ServiceOperationRequest)
    ensures
        r.deep_view() == builds_page_request_of(app.deep_view(), next_page_url.deep_view()),
{
    let input = match next_page_url {
        Some(url) => ServiceInput::new().with("next", url),
        None => ServiceInput::new().with("limit", ASC_BUILDS_PAGE_SIZE.to_owned()).with(
            "sort",
            "-uploadedDate".to_owned(),
        ),
    };
    ServiceOperationRequest {
        provider_id: APP_STORE_CONNECT_PROVIDER_ID.to_owned(),
        operation: "list_builds".to_owned(),
        resource: Some(resource_of_app(app)),
        artifact: None,
        input,
    }
}

/// The record carries a prerelease version under `id`.
pub open spec fn is_version_record(record: AscPreReleaseVersionRecordView, id: Seq<char>) -> bool {
    record.resource_type == "preReleaseVersions"@ && record.id == id
}

/// The prerelease version under `id`; of several the last one counts.
pub open spec fn version_under(
    included: Seq<AscPreReleaseVersionRecordView>,
    id: Seq<char>,
) -> Option<AscPreReleaseVersionAttributesView>
    decreases included.len(),
{
    if included.len() == 0 {
        None
    } else if is_version_record(included.last(), id) {
        Some(included.last().attributes)
    } else {
        version_under(included.drop_last(), id)
    }
}

/// The identifier of the prerelease version that a build belongs to.
pub open spec fn version_id_of(record: AscBuildRecordView) -> Option<Seq<char>> {
    match record.relationships.pre_release_version {
        Some(relationship) => match relationship.data {
            Some(identifier) => Some(identifier.id),
            None => None,
        },
        None => None,
    }
}

/// The prerelease version that a build belongs to.
pub open spec fn version_of(
    included: Seq<AscPreReleaseVersionRecordView>,
    record: AscBuildRecordView,
) -> Option<AscPreReleaseVersionAttributesView> {
    match version_id_of(record) {
        Some(id) => version_under(included, id),
        None => None,
    }
}

/// The build that a record describes.
pub open spec fn build_of_record(
    included: Seq<AscPreReleaseVersionRecordView>,
    record: AscBuildRecordView,
) -> AscBuildSummaryView {
    AscBuildSummaryView {
        id: record.id,
        build_number: record.attributes.version,
        marketing_version: match version_of(included, record) {
            Some(version) => Some(version.version),
            None => None,
        },
        platform: match version_of(included, record) {
            Some(version) => Some(version.platform),
            None => None,
        },
        processing_state: record.attributes.processing_state,
        uploaded_date: record.attributes.uploaded_date,
        expiration_date: record.attributes.expiration_date,
        testflight_internal_state: None,
        testflight_external_state: None,
        app_store_version_id: None,
        app_store_state: None,
    }
}

/// `value` without the whitespace around it, unless nothing is left.
pub open spec fn non_empty(value: Seq<char>) -> Option<Seq<char>> {
    if trimmed(value).len() == 0 {
        None
    } else {
        Some(trimmed(value))
    }
}

/// The page that a listing of builds describes.
pub open spec fn page_of_response(response: AscBuildsResponseView) -> AscBuildPageView {
    AscBuildPageView {
        builds: response.data.map_values(
            |record: AscBuildRecordView| build_of_record(response.included, record),
        ),
        next_page_url: non_empty(response.links.next),
    }
}

/// `value` without the whitespace around it, unless nothing is left.
pub fn non_empty_string(value: String) -> (r: Option<String>)
    ensures
        r.deep_view() == non_empty(value@),
{
    let value = trim(value.as_str());
    if value.as_str().is_empty() {
        None
    } else {
        Some(value)
    }
}

fn find_version(included: &Vec<AscPreReleaseVersionRecord>, id: &str) -> (r: Option<usize>)
    ensures
        match r {
            Some(i) => i < included@.len() && version_under(included.deep_view(), id@) == Some(
                included@[i as int].attributes.deep_view(),
            ),
            None => version_under(included.deep_view(), id@) is None,
        },
{
    let mut i: usize = included.len();
    let ghost all = included.deep_view();
    assert(all.take(i as int) =~= all);
    while i > 0
        invariant
            i <= included@.len(),
            all == included.deep_view(),
            version_under(all, id@) == version_under(all.take(i as int), id@),
        decreases i,
    {
        let record = &included[i - 1];
        assert(all.take(i as int).last() == record.deep_view());
        if str_eq(record.resource_type.as_str(), "preReleaseVersions") && str_eq(
            record.id.as_str(),
            id,
        ) {
            return Some(i - 1);
        }
        assert(all.take(i as int).drop_last() =~= all.take(i - 1));
        i = i - 1;
    }
    None
}

fn build_from_record(
    included: &Vec<AscPreReleaseVersionRecord>,
    record: &AscBuildRecord,
) -> (r: AscBuildSummary)
    ensures
        r.deep_view() == build_of_record(included.deep_view(), record.deep_view()),
{
    let found: Option<usize> = match &record.relationships.pre_release_version {
        Some(relationship) => match &relationship.data {
            Some(identifier) => find_version(included, identifier.id.as_str()),
            None => None,
        },
        None => None,
    };
    AscBuildSummary {
        id: record.id.clone(),
        build_number: record.attributes.version.clone(),
        marketing_version: match found {
            Some(i) => Some(included[i].attributes.version.clone()),
            None => None,
        },
        platform: match found {
            Some(i) => Some(included[i].attributes.platform.clone()),
            None => None,
        },
        processing_state: record.attributes.processing_state.clone(),
        uploaded_date: record.attributes.uploaded_date.clone(),
        expiration_date: opt_clone(&record.attributes.expiration_date),
        testflight_internal_state: None,
        testflight_external_state: None,
        app_store_version_id: None,
        app_store_state: None,
    }
}

/// The page that a listing of builds describes. Nothing but the listing is looked at.
pub fn build_page_from_response(response: AscBuildsResponse) -> (r: AscBuildPage)
    ensures
        r.deep_view() == page_of_response(response.deep_view()),
{
    let mut builds: Vec<AscBuildSummary> = Vec::new();
    let ghost all = page_of_response(response.deep_view()).builds;
    let mut i: usize = 0;
    while i < response.data.len()
        invariant
            i <= response.data@.len(),
            all == page_of_response(response.deep_view()).builds,
            builds.deep_view() =~= all.take(i as int),
        decreases response.data@.len() - i,
    {
        let ghost before = builds.deep_view();
        let build = build_from_record(&response.included, &response.data[i]);
        assert(build.deep_view() == all[i as int]);
        builds.push(build);
        assert(builds.deep_view() =~= before.push(all[i as int]));
        i = i + 1;
    }
    assert(builds.deep_view() =~= all);
    AscBuildPage { builds, next_page_url: non_empty_string(response.links.next) }
}

/// How a platform is written out.
pub open spec fn platform_label(platform: Option<Seq<char>>) -> Seq<char> {
    match platform {
        Some(platform) => if platform == "IOS"@ {
            "iOS"@
        } else if platform == "MAC_OS"@ {
            "macOS"@
        } else if platform == "TV_OS"@ {
            "tvOS"@
        } else if platform == "VISION_OS"@ {
            "visionOS"@
        } else {
            replaced(platform, '_', ' ')
        },
        None => "Unknown"@,
    }
}

/// How a platform is written out.
pub fn format_platform(platform: &Option<String>) -> (r: String)
    ensures
        r@ == platform_label(platform.deep_view()),
{
    match platform {
        Some(platform) => {
            let platform = platform.as_str();
            if str_eq(platform, "IOS") {
                "iOS".to_owned()
            } else if str_eq(platform, "MAC_OS") {
                "macOS".to_owned()
            } else if str_eq(platform, "TV_OS") {
                "tvOS".to_owned()
            } else if str_eq(platform, "VISION_OS") {
                "visionOS".to_owned()
            } else {
                replace(platform, '_', ' ')
            }
        },
        None => "Unknown".to_owned(),
    }
}

/// `word` with its first letter in upper case and the rest in lower case.
pub open spec fn capitalized(word: Seq<char>) -> Seq<char> {
    seq![ascii_upper(word[0])] + lowercased(word.drop_first())
}

/// The pieces that hold anything, capitalized.
pub open spec fn capitalized_words(pieces: Seq<Seq<char>>) -> Seq<Seq<char>> {
    pieces.filter(|word: Seq<char>| word.len() > 0).map_values(
        |word: Seq<char>| capitalized(word),
    )
}

/// The words of a state such as `IN_REVIEW`, capitalized and set apart by spaces.
pub open spec fn state_label(state: Seq<char>) -> Seq<char> {
    joined(capitalized_words(split_of(state, '_')), " "@)
}

fn capitalize(word: &str) -> (r: String)
    requires
        word@.len() > 0,
    ensures
        r@ == capitalized(word@),
{
    let first = prefix(word, 1);
    let mut r = to_upper(first.as_str());
    let rest = to_lower_from(word, 1);
    r.append(rest.as_str());
    assert(word@.skip(1) =~= word@.drop_first());
    assert(r@ =~= capitalized(word@));
    r
}

/// The words of a state such as `IN_REVIEW`, capitalized and set apart by spaces.
pub fn format_processing_state(processing_state: &str) -> (r: String)
    ensures
        r@ == state_label(processing_state@),
{
    let pieces = split(processing_state, '_');
    let mut words: Vec<String> = Vec::new();
    let ghost all = pieces.deep_view();
    let ghost keep = |word: Seq<char>| word.len() > 0;
    let ghost cap = |word: Seq<char>| capitalized(word);
    let mut i: usize = 0;
    proof {
        reveal(Seq::filter);
        assert(words.deep_view() =~= all.take(0).filter(keep).map_values(cap));
    }
    while i < pieces.len()
        invariant
            i <= pieces@.len(),
            all == pieces.deep_view(),
            keep == (|word: Seq<char>| word.len() > 0),
            cap == (|word: Seq<char>| capitalized(word)),
            words.deep_view() == all.take(i as int).filter(keep).map_values(cap),
        decreases pieces@.len() - i,
    {
        let ghost before = words.deep_view();
        proof {
            reveal(Seq::filter);
            assert(all.take(i + 1).drop_last() =~= all.take(i as int));
            assert(all.take(i + 1).last() == pieces@[i as int]@);
        }
        if !pieces[i].as_str().is_empty() {
            words.push(capitalize(pieces[i].as_str()));
            assert(words.deep_view() =~= before.push(capitalized(pieces@[i as int]@)));
            assert(words.deep_view() =~= all.take(i + 1).filter(keep).map_values(cap));
        }
        i = i + 1;
    }
    assert(all.take(i as int) =~= all);
    join(&words, " ")
}

/// `s` with every underscore written twice.
pub open spec fn underscores_doubled(s: Seq<char>) -> Seq<char>
    decreases s.len(),
{
    if s.len() == 0 {
        s
    } else if s.last() == '_' {
        underscores_doubled(s.drop_last()).push('_').push('_')
    } else {
        underscores_doubled(s.drop_last()).push(s.last())
    }
}

proof fn lemma_words_push(pieces: Seq<Seq<char>>, piece: Seq<char>)
    ensures
        capitalized_words(pieces.push(piece)) == (if piece.len() > 0 {
            capitalized_words(pieces).push(capitalized(piece))
        } else {
            capitalized_words(pieces)
        }),
{
    reveal(Seq::filter);
    assert(pieces.push(piece).drop_last() =~= pieces);
    if piece.len() > 0 {
        assert(capitalized_words(pieces.push(piece)) =~= capitalized_words(pieces).push(
            capitalized(piece),
        ));
    }
}

proof fn lemma_words_of_nothing()
    ensures
        capitalized_words(Seq::empty()) == Seq::<Seq<char>>::empty(),
{
    reveal(Seq::filter);
    assert(capitalized_words(Seq::empty()) =~= Seq::<Seq<char>>::empty());
}

/// The words of two lists of pieces are the words of the one and those of the other.
pub proof fn lemma_words_add(a: Seq<Seq<char>>, b: Seq<Seq<char>>)
    ensures
        capitalized_words(a + b) == capitalized_words(a) + capitalized_words(b),
    decreases b.len(),
{
    if b.len() == 0 {
        lemma_words_of_nothing();
        assert(b =~= Seq::empty());
        assert(a + b =~= a);
        assert(capitalized_words(a) + capitalized_words(b) =~= capitalized_words(a));
    } else {
        lemma_words_add(a, b.drop_last());
        lemma_words_push(a + b.drop_last(), b.last());
        lemma_words_push(b.drop_last(), b.last());
        assert(a + b =~= (a + b.drop_last()).push(b.last()));
        assert(b =~= b.drop_last().push(b.last()));
        assert(capitalized_words(a + b) =~= capitalized_words(a) + capitalized_words(b));
    }
}

proof fn lemma_capitalized_ignores_case(a: Seq<char>, b: Seq<char>)
    requires
        lowercased(a) == lowercased(b),
        a.len() > 0,
    ensures
        capitalized(a) == capitalized(b),
{
    assert(lowercased(a).len() == a.len() && lowercased(b).len() == b.len());
    assert(lowercased(a)[0] == ascii_lower(a[0]) && lowercased(b)[0] == ascii_lower(b[0]));
    lemma_ascii_case(a[0], b[0]);
    assert(lowercased(a.drop_first()) =~= lowercased(a).drop_first());
    assert(lowercased(b.drop_first()) =~= lowercased(b).drop_first());
}

proof fn lemma_words_ignore_case(a: Seq<Seq<char>>, b: Seq<Seq<char>>)
    requires
        a.len() == b.len(),
        forall|i: int| 0 <= i < a.len() ==> lowercased(#[trigger] a[i]) == lowercased(b[i]),
    ensures
        capitalized_words(a) == capitalized_words(b),
    decreases a.len(),
{
    if a.len() == 0 {
        assert(a =~= b);
    } else {
        let n = a.len() - 1;
        assert forall|i: int| 0 <= i < n implies lowercased(#[trigger] a.drop_last()[i])
            == lowercased(b.drop_last()[i]) by {
            assert(a.drop_last()[i] == a[i]);
        }
        lemma_words_ignore_case(a.drop_last(), b.drop_last());
        lemma_words_push(a.drop_last(), a[n]);
        lemma_words_push(b.drop_last(), b[n]);
        assert(a =~= a.drop_last().push(a[n]));
        assert(b =~= b.drop_last().push(b[n]));
        assert(lowercased(a[n]).len() == a[n].len() && lowercased(b[n]).len() == b[n].len());
        if a[n].len() > 0 {
            lemma_capitalized_ignores_case(a[n], b[n]);
        }
    }
}

proof fn lemma_words_hold_no_underscore(pieces: Seq<Seq<char>>)
    requires
        forall|i: int| 0 <= i < pieces.len() ==> !(#[trigger] pieces[i]).contains('_'),
    ensures
        forall|i: int|
            0 <= i < capitalized_words(pieces).len() ==> !(
            #[trigger] capitalized_words(pieces)[i]).contains('_'),
    decreases pieces.len(),
{
    if pieces.len() == 0 {
        lemma_words_of_nothing();
        assert(pieces =~= Seq::empty());
    } else {
        let n = pieces.len() - 1;
        let word = pieces[n];
        assert forall|i: int| 0 <= i < n implies !(#[trigger] pieces.drop_last()[i]).contains(
            '_',
        ) by {
            assert(pieces.drop_last()[i] == pieces[i]);
        }
        lemma_words_hold_no_underscore(pieces.drop_last());
        lemma_words_push(pieces.drop_last(), word);
        assert(pieces =~= pieces.drop_last().push(word));
        if word.len() > 0 && capitalized(word).contains('_') {
            let k = choose|k: int|
                0 <= k < capitalized(word).len() && capitalized(word)[k] == '_';
            assert(word[k] == '_');
        }
    }
}

proof fn lemma_doubled_pieces(s: Seq<char>)
    ensures
        ({
            let once = split_of(s, '_');
            let twice = split_of(underscores_doubled(s), '_');
            &&& once.len() > 0
            &&& twice.len() > 0
            &&& once.last() == twice.last()
            &&& capitalized_words(once.drop_last()) == capitalized_words(twice.drop_last())
        }),
    decreases s.len(),
{
    lemma_split_holds_no_separator(s, '_');
    lemma_split_holds_no_separator(underscores_doubled(s), '_');
    if s.len() > 0 {
        let t = s.drop_last();
        lemma_doubled_pieces(t);
        let once = split_of(t, '_');
        let doubled = underscores_doubled(t);
        let twice = split_of(doubled, '_');
        if s.last() == '_' {
            assert(doubled.push('_').drop_last() =~= doubled);
            assert(doubled.push('_').push('_').drop_last() =~= doubled.push('_'));
            let nothing = Seq::<char>::empty();
            assert(split_of(doubled.push('_'), '_') == twice.push(nothing));
            assert(split_of(underscores_doubled(s), '_') == twice.push(nothing).push(nothing));
            assert(split_of(underscores_doubled(s), '_').drop_last() =~= twice.push(nothing));
            assert(split_of(s, '_').drop_last() =~= once);
            lemma_words_push(twice, nothing);
            lemma_words_push(twice.drop_last(), twice.last());
            lemma_words_push(once.drop_last(), once.last());
            assert(twice =~= twice.drop_last().push(twice.last()));
            assert(once =~= once.drop_last().push(once.last()));
        } else {
            assert(doubled.push(s.last()).drop_last() =~= doubled);
            assert(split_of(underscores_doubled(s), '_').drop_last() =~= twice.drop_last());
            assert(split_of(s, '_').drop_last() =~= once.drop_last());
        }
    }
}

/// The label of a state holds no underscore.
pub proof fn lemma_label_holds_no_underscore(state: Seq<char>)
    ensures
        !state_label(state).contains('_'),
{
    reveal_strlit(" ");
    lemma_split_holds_no_separator(state, '_');
    lemma_words_hold_no_underscore(split_of(state, '_'));
    lemma_joined_holds_no_more(capitalized_words(split_of(state, '_')), " "@, '_');
}

/// States that differ in the case of their letters alone have the same label; so has a state in
/// upper or in lower case.
pub proof fn lemma_label_ignores_case(a: Seq<char>, b: Seq<char>)
    requires
        lowercased(a) == lowercased(b),
    ensures
        state_label(a) == state_label(b),
        state_label(uppercased(a)) == state_label(a),
        state_label(lowercased(a)) == state_label(a),
{
    lemma_split_ignores_case(a, b, '_');
    lemma_words_ignore_case(split_of(a, '_'), split_of(b, '_'));
    lemma_case_change(a);
    lemma_split_ignores_case(uppercased(a), a, '_');
    lemma_words_ignore_case(split_of(uppercased(a), '_'), split_of(a, '_'));
    lemma_split_ignores_case(lowercased(a), a, '_');
    lemma_words_ignore_case(split_of(lowercased(a), '_'), split_of(a, '_'));
}

/// Underscores around a state, and further ones where there is one, do not change its label.
pub proof fn lemma_label_ignores_extra_underscores(a: Seq<char>, b: Seq<char>)
    ensures
        state_label(seq!['_'] + a + seq!['_']) == state_label(a),
        state_label(underscores_doubled(a)) == state_label(a),
        state_label(a.push('_').push('_') + b) == state_label(a.push('_') + b),
{
    let nothing = Seq::<char>::empty();
    let none = seq![nothing];
    let pieces = split_of(a, '_');
    lemma_words_of_nothing();
    lemma_words_push(Seq::empty(), nothing);
    assert(none =~= Seq::<Seq<char>>::empty().push(nothing));

    lemma_split_at(nothing, '_', a);
    assert(seq!['_'] + a =~= nothing.push('_') + a);
    lemma_words_add(none, pieces);
    assert(capitalized_words(none + pieces) =~= capitalized_words(pieces));
    lemma_split_at(seq!['_'] + a, '_', nothing);
    assert(seq!['_'] + a + seq!['_'] =~= (seq!['_'] + a).push('_') + nothing);
    lemma_words_add(none + pieces, none);
    assert(capitalized_words(none + pieces + none) =~= capitalized_words(pieces));

    lemma_doubled_pieces(a);
    let twice = split_of(underscores_doubled(a), '_');
    lemma_words_push(pieces.drop_last(), pieces.last());
    lemma_words_push(twice.drop_last(), twice.last());
    assert(pieces =~= pieces.drop_last().push(pieces.last()));
    assert(twice =~= twice.drop_last().push(twice.last()));

    lemma_split_at(a, '_', b);
    lemma_split_at(a.push('_'), '_', b);
    lemma_split_at(a, '_', nothing);
    assert(a.push('_') =~= a.push('_') + nothing);
    lemma_words_add(pieces, none);
    lemma_words_add(pieces, split_of(b, '_'));
    lemma_words_add(pieces + none, split_of(b, '_'));
    assert(capitalized_words(pieces + none) =~= capitalized_words(pieces));
}

/// A state of nothing but underscores has an empty label.
pub proof fn lemma_label_of_underscores(state: Seq<char>)
    requires
        forall|i: int| 0 <= i < state.len() ==> state[i] == '_',
    ensures
        state_label(state) == Seq::<char>::empty(),
    decreases state.len(),
{
    let nothing = Seq::<char>::empty();
    lemma_words_of_nothing();
    if state.len() == 0 {
        lemma_words_push(Seq::empty(), nothing);
        assert(split_of(state, '_') =~= Seq::<Seq<char>>::empty().push(nothing));
    } else {
        lemma_label_of_underscores(state.drop_last());
        lemma_words_push(split_of(state.drop_last(), '_'), nothing);
    }
}

/// A timestamp as its date and the hour and minute; left as it is where there is no time in it.
pub open spec fn date_label(timestamp: Seq<char>) -> Seq<char> {
    match split_once_of(timestamp, 'T') {
        Some((date, time)) => date + " "@ + prefix_of(time, 5),
        None => timestamp,
    }
}

/// A timestamp as its date and the hour and minute; left as it is where there is no time in it.
pub fn format_build_date(timestamp: &str) -> (r: String)
    ensures
        r@ == date_label(timestamp@),
{
    match split_once(timestamp, 'T') {
        Some((date, time)) => {
            let mut r = date;
            r.append(" ");
            r.append(prefix(time.as_str(), 5).as_str());
            r
        },
        None => timestamp.to_owned(),
    }
}

/// Where a build has been released to.
pub open spec fn release_type_label(build: AscBuildSummaryView) -> Seq<char> {
    let in_testflight = build.testflight_internal_state is Some
        || build.testflight_external_state is Some;
    let in_app_store = build.app_store_version_id is Some;
    if in_testflight && in_app_store {
        "TestFlight + App Store"@
    } else if in_testflight {
        "TestFlight"@
    } else if in_app_store {
        "App Store"@
    } else {
        "Unknown"@
    }
}

/// Where a build has been released to.
pub fn build_release_type(build: &AscBuildSummary) -> (r: String)
    ensures
        r@ == release_type_label(build.deep_view()),
{
    let in_testflight = build.testflight_internal_state.is_some()
        || build.testflight_external_state.is_some();
    let in_app_store = build.app_store_version_id.is_some();
    match (in_testflight, in_app_store) {
        (true, true) => "TestFlight + App Store".to_owned(),
        (true, false) => "TestFlight".to_owned(),
        (false, true) => "App Store".to_owned(),
        (false, false) => "Unknown".to_owned(),
    }
}

/// `parts`, followed by `tag` and the label of `state` where there is a state.
pub open spec fn with_state(
    parts: Seq<Seq<char>>,
    tag: Seq<char>,
    state: Option<Seq<char>>,
) -> Seq<Seq<char>> {
    match state {
        Some(state) => parts.push(tag + state_label(state)),
        None => parts,
    }
}

/// The states of a build in one line.
pub open spec fn status_summary(build: AscBuildSummaryView) -> Seq<char> {
    joined(
        with_state(
            with_state(
                seq![state_label(build.processing_state)],
                "TF "@,
                build.testflight_external_state,
            ),
            "AS "@,
            build.app_store_state,
        ),
        " · "@,
    )
}

fn push_state(parts: &mut Vec<String>, tag: &str, state: &Option<String>)
    ensures
        final(parts).deep_view() == with_state(old(parts).deep_view(), tag@, state.deep_view()),
{
    if let Some(state) = state {
        let ghost before = parts.deep_view();
        let mut part = tag.to_owned();
        part.append(format_processing_state(state.as_str()).as_str());
        let ghost last = part@;
        parts.push(part);
        assert(parts.deep_view() =~= before.push(last));
    }
}

/// The states of a build in one line.
pub fn build_status_summary(build: &AscBuildSummary) -> (r: String)
    ensures
        r@ == status_summary(build.deep_view()),
{
    let mut states: Vec<String> = Vec::new();
    states.push(format_processing_state(build.processing_state.as_str()));
    assert(states.deep_view() =~= seq![state_label(build.processing_state@)]);
    push_state(&mut states, "TF ", &build.testflight_external_state);
    push_state(&mut states, "AS ", &build.app_store_state);
    join(&states, " · ")
}

/// A state, in upper case, that tells of a failure.
pub open spec fn tells_failure(state: Seq<char>) -> bool {
    ||| contains_text(state, "REJECTED"@)
    ||| contains_text(state, "INVALID"@)
    ||| contains_text(state, "FAILED"@)
    ||| contains_text(state, "ERROR"@)
}

/// A state, in upper case, that tells of something under way.
pub open spec fn tells_progress(state: Seq<char>) -> bool {
    ||| contains_text(state, "WAITING"@)
    ||| contains_text(state, "IN_REVIEW"@)
    ||| contains_text(state, "FOR_REVIEW"@)
    ||| contains_text(state, "PROCESSING"@)
    ||| contains_text(state, "PENDING"@)
    ||| contains_text(state, "PREPARE"@)
    ||| contains_text(state, "SUBMITTED"@)
}

/// A state, in upper case, that tells of success.
pub open spec fn tells_success(state: Seq<char>) -> bool {
    ||| contains_text(state, "READY"@)
    ||| contains_text(state, "VALID"@)
    ||| contains_text(state, "ACTIVE"@)
    ||| contains_text(state, "APPROVED"@)
    ||| contains_text(state, "TESTING"@)
}

/// The colour of a state: failure goes before progress, progress before success.
pub open spec fn state_color(state: Seq<char>) -> Color {
    let state = uppercased(state);
    if tells_failure(state) {
        Color::Error
    } else if tells_progress(state) {
        Color::Warning
    } else if tells_success(state) {
        Color::Success
    } else {
        Color::Muted
    }
}

/// The colour of a state.
pub fn color_for_state(value: &str) -> (r: Color)
    ensures
        r == state_color(value@),
{
    let value = to_upper(value);
    let value = value.as_str();
    if contains(value, "REJECTED") || contains(value, "INVALID") || contains(value, "FAILED")
        || contains(value, "ERROR") {
        Color::Error
    } else if contains(value, "WAITING") || contains(value, "IN_REVIEW") || contains(
        value,
        "FOR_REVIEW",
    ) || contains(value, "PROCESSING") || contains(value, "PENDING") || contains(value, "PREPARE")
        || contains(value, "SUBMITTED") {
        Color::Warning
    } else if contains(value, "READY") || contains(value, "VALID") || contains(value, "ACTIVE")
        || contains(value, "APPROVED") || contains(value, "TESTING") {
        Color::Success
    } else {
        Color::Muted
    }
}

/// The colour of a state does not depend on the case of its letters.
pub proof fn lemma_color_ignores_case(state: Seq<char>)
    ensures
        state_color(uppercased(state)) == state_color(state),
{
    assert(uppercased(uppercased(state)) =~= uppercased(state));
}

/// A page of builds is complete with the listing: a build for each record, in their order, of which
/// nothing is said that would have to be asked for.
pub proof fn lemma_page_needs_no_follow_up(response: AscBuildsResponseView)
    ensures
        page_of_response(response).builds.len() == response.data.len(),
        forall|i: int|
            0 <= i < response.data.len() ==> {
                let build = #[trigger] page_of_response(response).builds[i];
                &&& build.id == response.data[i].id
                &&& build.testflight_internal_state is None
                &&& build.testflight_external_state is None
                &&& build.app_store_version_id is None
                &&& build.app_store_state is None
            },
        page_of_response(response).next_page_url matches Some(url) ==> url.len() > 0 && url
            == trimmed(response.links.next),
{
}

/// A label and the state behind it, the state written out.
pub open spec fn embedded_state_label(value: Seq<char>) -> Seq<char> {
    match split_once_of(value, ' ') {
        Some((label, state)) => label + " "@ + state_label(state),
        None => state_label(value),
    }
}

/// A label and the state behind it, the state written out.
pub fn format_embedded_state(value: &str) -> (r: String)
    ensures
        r@ == embedded_state_label(value@),
{
    match split_once(value, ' ') {
        Some((label, state)) => {
            let mut r = label;
            r.append(" ");
            r.append(format_processing_state(state.as_str()).as_str());
            r
        },
        None => format_processing_state(value),
    }
}

/// A state as it is shown: a dot and a text of one colour.
#[derive(Debug, PartialEq, Eq)]
pub struct StateLine {
    pub text: String,
    pub color: Color,
}

/// The value of a [`StateLine`].
#[verifier::ext_equal]
pub struct StateLineView {
    pub text: Seq<char>,
    pub color: Color,
}

impl DeepView for StateLine {
    type V = StateLineView;

    open spec fn deep_view(&self) -> StateLineView {
        StateLineView {
            text: self.text@,
            color: self.color,
        }
    }
}

impl Clone for StateLine {
    fn clone(&self) -> (r: Self)
        ensures
            r.deep_view() == self.deep_view(),
    {
        StateLine {
            text: self.text.clone(),
            color: self.color,
        }
    }
}

/// A row of the table of builds.
#[derive(Debug, PartialEq, Eq)]
pub struct BuildRow {
    /// Every second row is shaded.
    pub shaded: bool,
    /// Every row but the first has a rule above it.
    pub ruled: bool,
    pub platform: String,
    pub release_type: String,
    pub uploaded: String,
    pub expires: Option<String>,
    pub status: Vec<StateLine>,
    pub build_number: String,
    pub version: String,
}

/// The value of a [`BuildRow`].
#[verifier::ext_equal]
pub struct BuildRowView {
    pub shaded: bool,
    pub ruled: bool,
    pub platform: Seq<char>,
    pub release_type: Seq<char>,
    pub uploaded: Seq<char>,
    pub expires: Option<Seq<char>>,
    pub status: Seq<StateLineView>,
    pub build_number: Seq<char>,
    pub version: Seq<char>,
}

impl DeepView for BuildRow {
    type V = BuildRowView;

    open spec fn deep_view(&self) -> BuildRowView {
        BuildRowView {
            shaded: self.shaded,
            ruled: self.ruled,
            platform: self.platform@,
            release_type: self.release_type@,
            uploaded: self.uploaded@,
            expires: self.expires.deep_view(),
            status: self.status.deep_view(),
            build_number: self.build_number@,
            version: self.version@,
        }
    }
}

impl Clone for BuildRow {
    fn clone(&self) -> (r: Self)
        ensures
            r.deep_view() == self.deep_view(),
    {
        let r = BuildRow {
            shaded: self.shaded,
            ruled: self.ruled,
            platform: self.platform.clone(),
            release_type: self.release_type.clone(),
            uploaded: self.uploaded.clone(),
            expires: opt_clone(&self.expires),
            status: self.status.clone(),
            build_number: self.build_number.clone(),
            version: self.version.clone(),
        };
        assert(r.status.deep_view() =~= self.status.deep_view());
        r
    }
}

/// The line of a bare state.
pub open spec fn state_line(value: Seq<char>) -> StateLineView {
    StateLineView { text: state_label(value), color: state_color(value) }
}

/// The line of a state behind a label.
pub open spec fn embedded_state_line(label: Seq<char>, state: Seq<char>) -> StateLineView {
    StateLineView {
        text: embedded_state_label(label + " "@ + state),
        color: state_color(label + " "@ + state),
    }
}

/// The lines that show the states of a build.
pub open spec fn status_lines(build: AscBuildSummaryView) -> Seq<StateLineView> {
    let processing = seq![state_line(build.processing_state)];
    let tested = match build.testflight_external_state {
        Some(state) => processing.push(embedded_state_line("TestFlight"@, state)),
        None => processing,
    };
    match build.app_store_state {
        Some(state) => tested.push(embedded_state_line("App Store"@, state)),
        None => tested,
    }
}

fn render_embedded_state_line(label: &str, state: &str) -> (r: StateLine)
    ensures
        r.deep_view() == embedded_state_line(label@, state@),
{
    let mut value = label.to_owned();
    value.append(" ");
    value.append(state);
    StateLine {
        text: format_embedded_state(value.as_str()),
        color: color_for_state(value.as_str()),
    }
}

/// The lines that show the states of a build.
pub fn render_build_status(build: &AscBuildSummary) -> (r: Vec<StateLine>)
    ensures
        r.deep_view() == status_lines(build.deep_view()),
{
    let mut lines: Vec<StateLine> = Vec::new();
    lines.push(
        StateLine {
            text: format_processing_state(build.processing_state.as_str()),
            color: color_for_state(build.processing_state.as_str()),
        },
    );
    assert(lines.deep_view() =~= seq![state_line(build.processing_state@)]);
    if let Some(state) = &build.testflight_external_state {
        let ghost before = lines.deep_view();
        lines.push(render_embedded_state_line("TestFlight", state.as_str()));
        assert(lines.deep_view() =~= before.push(embedded_state_line("TestFlight"@, state@)));
    }
    if let Some(state) = &build.app_store_state {
        let ghost before = lines.deep_view();
        lines.push(render_embedded_state_line("App Store", state.as_str()));
        assert(lines.deep_view() =~= before.push(embedded_state_line("App Store"@, state@)));
    }
    lines
}

/// The version of a build as it is shown.
pub open spec fn version_label(build: AscBuildSummaryView) -> Seq<char> {
    match build.marketing_version {
        Some(version) => version,
        None => "Unknown Version"@,
    }
}

/// The version of a build as it is shown.
pub fn format_version(build: &AscBuildSummary) -> (r: String)
    ensures
        r@ == version_label(build.deep_view()),
{
    match &build.marketing_version {
        Some(version) => version.clone(),
        None => "Unknown Version".to_owned(),
    }
}

/// The row of a build in the table.
pub open spec fn build_row(build: AscBuildSummaryView, row_index: int) -> BuildRowView {
    BuildRowView {
        shaded: row_index % 2 != 0,
        ruled: row_index > 0,
        platform: platform_label(build.platform),
        release_type: release_type_label(build),
        uploaded: date_label(build.uploaded_date),
        expires: match build.expiration_date {
            Some(date) => Some("Expires "@ + date_label(date)),
            None => None,
        },
        status: status_lines(build),
        build_number: build.build_number,
        version: version_label(build),
    }
}

/// The row of a build in the table.
pub fn render_builds_table_row(build: &AscBuildSummary, row_index: usize) -> (r: BuildRow)
    ensures
        r.deep_view() == build_row(build.deep_view(), row_index as int),
{
    BuildRow {
        shaded: row_index % 2 != 0,
        ruled: row_index > 0,
        platform: format_platform(&build.platform),
        release_type: build_release_type(build),
        uploaded: format_build_date(build.uploaded_date.as_str()),
        expires: match &build.expiration_date {
            Some(date) => {
                let mut expires = "Expires ".to_owned();
                expires.append(format_build_date(date.as_str()).as_str());
                Some(expires)
            },
            None => None,
        },
        status: render_build_status(build),
        build_number: build.build_number.clone(),
        version: format_version(build),
    }
}

/// The rows of the table of builds.
pub open spec fn build_rows(builds: Seq<AscBuildSummaryView>) -> Seq<BuildRowView> {
    Seq::new(builds.len(), |i: int| build_row(builds[i], i))
}

/// The rows of the table of builds.
pub fn render_builds_table(builds: &Vec<AscBuildSummary>) -> (r: Vec<BuildRow>)
    ensures
        r.deep_view() == build_rows(builds.deep_view()),
{
    let mut rows: Vec<BuildRow> = Vec::new();
    let mut i: usize = 0;
    while i < builds.len()
        invariant
            i <= builds@.len(),
            rows@.len() == i,
            forall|j: int|
                0 <= j < i ==> (#[trigger] rows@[j]).deep_view() == build_row(
                    builds@[j].deep_view(),
                    j,
                ),
        decreases builds@.len() - i,
    {
        rows.push(render_builds_table_row(&builds[i], i));
        i = i + 1;
    }
    assert(rows.deep_view() =~= build_rows(builds.deep_view()));
    rows
}

} // verus!
