//! What the sections of the App Store Connect pages show.

use crate::appearance::Color;
use crate::asc_apps::{AscAppSummary, AscAppSummaryView};
use crate::asc_builds::{build_rows, build_status_summary, date_label, format_build_date};
use crate::asc_builds::{format_platform, format_version, platform_label, render_builds_table};
use crate::asc_builds::{status_summary, version_label, AscBuildSummary, AscBuildSummaryView};
use crate::asc_builds::{BuildRow, BuildRowView};
use crate::asc_provider::{selected_app_of, selected_build_of, AppStoreConnectWorkspaceProvider};
use crate::asc_provider::AppStoreConnectWorkspaceProviderView;
use crate::load_state::{LoadState, LoadStateView};
use crate::services_provider::{ServicesPageState, ServicesPageStateView};
use crate::text::{cat2, opt_clone, opt_eq, str_eq};
use vstd::prelude::*;
use vstd::string::*;

verus! {

/// A panel that says why there is nothing to see.
#[derive(Debug, PartialEq, Eq)]
pub struct EmptyPanel {
    pub title: String,
    pub detail: String,
}

/// The value of an [`EmptyPanel`].
#[verifier::ext_equal]
pub struct EmptyPanelView {
    pub title: Seq<char>,
    pub detail: Seq<char>,
}

impl DeepView for EmptyPanel {
    type V = EmptyPanelView;

    open spec fn deep_view(&self) -> EmptyPanelView {
        EmptyPanelView {
            title: self.title@,
            detail: self.detail@,
        }
    }
}

impl Clone for EmptyPanel {
    fn clone(&self) -> (r: Self)
        ensures
            r.deep_view() == self.deep_view(),
    {
        EmptyPanel {
            title: self.title.clone(),
            detail: self.detail.clone(),
        }
    }
}

/// A named value.
#[derive(Debug, PartialEq, Eq)]
pub struct DetailRow {
    pub title: String,
    pub value: String,
}

/// The value of a [`DetailRow`].
#[verifier::ext_equal]
pub struct DetailRowView {
    pub title: Seq<char>,
    pub value: Seq<char>,
}

impl DeepView for DetailRow {
    type V = DetailRowView;

    open spec fn deep_view(&self) -> DetailRowView {
        DetailRowView {
            title: self.title@,
            value: self.value@,
        }
    }
}

impl Clone for DetailRow {
    fn clone(&self) -> (r: Self)
        ensures
            r.deep_view() == self.deep_view(),
    {
        DetailRow {
            title: self.title.clone(),
            value: self.value.clone(),
        }
    }
}

/// A panel that says how a run stands.
#[derive(Debug, PartialEq, Eq)]
pub struct RunPanel {
    pub headline: String,
    pub detail: String,
}

/// The value of a [`RunPanel`].
#[verifier::ext_equal]
pub struct RunPanelView {
    pub headline: Seq<char>,
    pub detail: Seq<char>,
}

impl DeepView for RunPanel {
    type V = RunPanelView;

    open spec fn deep_view(&self) -> RunPanelView {
        RunPanelView {
            headline: self.headline@,
            detail: self.detail@,
        }
    }
}

impl Clone for RunPanel {
    fn clone(&self) -> (r: Self)
        ensures
            r.deep_view() == self.deep_view(),
    {
        RunPanel {
            headline: self.headline.clone(),
            detail: self.detail.clone(),
        }
    }
}

/// The release section.
#[derive(Debug, PartialEq, Eq)]
pub struct ReleaseContent {
    pub run: Option<RunPanel>,
    pub empty: Option<EmptyPanel>,
}

/// The value of a [`ReleaseContent`].
#[verifier::ext_equal]
pub struct ReleaseContentView {
    pub run: Option<RunPanelView>,
    pub empty: Option<EmptyPanelView>,
}

impl DeepView for ReleaseContent {
    type V = ReleaseContentView;

    open spec fn deep_view(&self) -> ReleaseContentView {
        ReleaseContentView {
            run: self.run.deep_view(),
            empty: self.empty.deep_view(),
        }
    }
}

impl Clone for ReleaseContent {
    fn clone(&self) -> (r: Self)
        ensures
            r.deep_view() == self.deep_view(),
    {
        ReleaseContent {
            run: self.run.clone(),
            empty: self.empty.clone(),
        }
    }
}

/// The panel of an app.
#[derive(Debug, PartialEq, Eq)]
pub struct AppDetails {
    pub name: String,
    pub bundle_id: String,
    pub rows: Vec<DetailRow>,
}

/// The value of an [`AppDetails`].
#[verifier::ext_equal]
pub struct AppDetailsView {
    pub name: Seq<char>,
    pub bundle_id: Seq<char>,
    pub rows: Seq<DetailRowView>,
}

impl DeepView for AppDetails {
    type V = AppDetailsView;

    open spec fn deep_view(&self) -> AppDetailsView {
        AppDetailsView {
            name: self.name@,
            bundle_id: self.bundle_id@,
            rows: self.rows.deep_view(),
        }
    }
}

impl Clone for AppDetails {
    fn clone(&self) -> (r: Self)
        ensures
            r.deep_view() == self.deep_view(),
    {
        let r = AppDetails {
            name: self.name.clone(),
            bundle_id: self.bundle_id.clone(),
            rows: self.rows.clone(),
        };
        assert(r.rows.deep_view() =~= self.rows.deep_view());
        r
    }
}

/// The panel of a build.
#[derive(Debug, PartialEq, Eq)]
pub struct BuildDetails {
    pub version: String,
    pub build: String,
    pub rows: Vec<DetailRow>,
}

/// The value of a [`BuildDetails`].
#[verifier::ext_equal]
pub struct BuildDetailsView {
    pub version: Seq<char>,
    pub build: Seq<char>,
    pub rows: Seq<DetailRowView>,
}

impl DeepView for BuildDetails {
    type V = BuildDetailsView;

    open spec fn deep_view(&self) -> BuildDetailsView {
        BuildDetailsView {
            version: self.version@,
            build: self.build@,
            rows: self.rows.deep_view(),
        }
    }
}

impl Clone for BuildDetails {
    fn clone(&self) -> (r: Self)
        ensures
            r.deep_view() == self.deep_view(),
    {
        let r = BuildDetails {
            version: self.version.clone(),
            build: self.build.clone(),
            rows: self.rows.clone(),
        };
        assert(r.rows.deep_view() =~= self.rows.deep_view());
        r
    }
}

/// The overview section.
#[derive(Debug, PartialEq, Eq)]
pub enum OverviewContent {
    NoApp { panel: EmptyPanel },
    /// The selected app and its newest build.
    App { app: AppDetails, latest_build: Option<BuildDetails> },
}

/// The value of an [`OverviewContent`].
#[verifier::ext_equal]
pub enum OverviewContentView {
    NoApp { panel: EmptyPanelView },
    App { app: AppDetailsView, latest_build: Option<BuildDetailsView> },
}

impl DeepView for OverviewContent {
    type V = OverviewContentView;

    open spec fn deep_view(&self) -> OverviewContentView {
        match self {
            OverviewContent::NoApp { panel } => OverviewContentView::NoApp {
                panel: panel.deep_view(),
            },
            OverviewContent::App { app, latest_build } => OverviewContentView::App {
                app: app.deep_view(),
                latest_build: latest_build.deep_view(),
            },
        }
    }
}

impl Clone for OverviewContent {
    fn clone(&self) -> (r: Self)
        ensures
            r.deep_view() == self.deep_view(),
    {
        match self {
            OverviewContent::NoApp { panel } => {
                OverviewContent::NoApp { panel: panel.clone() }
            },
            OverviewContent::App { app, latest_build } => {
                OverviewContent::App { app: app.clone(), latest_build: latest_build.clone() }
            },
        }
    }
}

/// What stands below the table of builds.
#[derive(Debug, PartialEq, Eq)]
pub struct LoadMore {
    pub error: Option<String>,
    pub has_button: bool,
    pub disabled: bool,
}

/// The value of a [`LoadMore`].
#[verifier::ext_equal]
pub struct LoadMoreView {
    pub error: Option<Seq<char>>,
    pub has_button: bool,
    pub disabled: bool,
}

impl DeepView for LoadMore {
    type V = LoadMoreView;

    open spec fn deep_view(&self) -> LoadMoreView {
        LoadMoreView {
            error: self.error.deep_view(),
            has_button: self.has_button,
            disabled: self.disabled,
        }
    }
}

impl Clone for LoadMore {
    fn clone(&self) -> (r: Self)
        ensures
            r.deep_view() == self.deep_view(),
    {
        LoadMore {
            error: opt_clone(&self.error),
            has_button: self.has_button,
            disabled: self.disabled,
        }
    }
}

/// What stands in the builds section.
#[derive(Debug, PartialEq, Eq)]
pub enum BuildsBody {
    Message { text: String, color: Color },
    Failed { title: String, detail: String },
    Table { rows: Vec<BuildRow>, load_more: Option<LoadMore> },
}

/// The value of a [`BuildsBody`].
#[verifier::ext_equal]
pub enum BuildsBodyView {
    Message { text: Seq<char>, color: Color },
    Failed { title: Seq<char>, detail: Seq<char> },
    Table { rows: Seq<BuildRowView>, load_more: Option<LoadMoreView> },
}

impl DeepView for BuildsBody {
    type V = BuildsBodyView;

    open spec fn deep_view(&self) -> BuildsBodyView {
        match self {
            BuildsBody::Message { text, color } => BuildsBodyView::Message {
                text: text@,
                color: *color,
            },
            BuildsBody::Failed { title, detail } => BuildsBodyView::Failed {
                title: title@,
                detail: detail@,
            },
            BuildsBody::Table { rows, load_more } => BuildsBodyView::Table {
                rows: rows.deep_view(),
                load_more: load_more.deep_view(),
            },
        }
    }
}

impl Clone for BuildsBody {
    fn clone(&self) -> (r: Self)
        ensures
            r.deep_view() == self.deep_view(),
    {
        match self {
            BuildsBody::Message { text, color } => {
                BuildsBody::Message { text: text.clone(), color: *color }
            },
            BuildsBody::Failed { title, detail } => {
                BuildsBody::Failed { title: title.clone(), detail: detail.clone() }
            },
            BuildsBody::Table { rows, load_more } => {
                let copied_rows = rows.clone();
                assert(copied_rows.deep_view() =~= rows.deep_view());
                BuildsBody::Table { rows: copied_rows, load_more: load_more.clone() }
            },
        }
    }
}

/// The builds section.
#[derive(Debug, PartialEq, Eq)]
pub struct BuildsContent {
    pub refresh_disabled: bool,
    pub body: BuildsBody,
}

/// The value of a [`BuildsContent`].
#[verifier::ext_equal]
pub struct BuildsContentView {
    pub refresh_disabled: bool,
    pub body: BuildsBodyView,
}

impl DeepView for BuildsContent {
    type V = BuildsContentView;

    open spec fn deep_view(&self) -> BuildsContentView {
        BuildsContentView {
            refresh_disabled: self.refresh_disabled,
            body: self.body.deep_view(),
        }
    }
}

impl Clone for BuildsContent {
    fn clone(&self) -> (r: Self)
        ensures
            r.deep_view() == self.deep_view(),
    {
        BuildsContent {
            refresh_disabled: self.refresh_disabled,
            body: self.body.clone(),
        }
    }
}

/// A section of the pages.
#[derive(Debug, PartialEq, Eq)]
pub enum SectionContent {
    Overview { overview: OverviewContent },
    Builds { builds: BuildsContent },
    Release { release: ReleaseContent },
}

/// The value of a [`SectionContent`].
#[verifier::ext_equal]
pub enum SectionContentView {
    Overview { overview: OverviewContentView },
    Builds { builds: BuildsContentView },
    Release { release: ReleaseContentView },
}

impl DeepView for SectionContent {
    type V = SectionContentView;

    open spec fn deep_view(&self) -> SectionContentView {
        match self {
            SectionContent::Overview { overview } => SectionContentView::Overview {
                overview: overview.deep_view(),
            },
            SectionContent::Builds { builds } => SectionContentView::Builds {
                builds: builds.deep_view(),
            },
            SectionContent::Release { release } => SectionContentView::Release {
                release: release.deep_view(),
            },
        }
    }
}

impl Clone for SectionContent {
    fn clone(&self) -> (r: Self)
        ensures
            r.deep_view() == self.deep_view(),
    {
        match self {
            SectionContent::Overview { overview } => {
                SectionContent::Overview { overview: overview.clone() }
            },
            SectionContent::Builds { builds } => {
                SectionContent::Builds { builds: builds.clone() }
            },
            SectionContent::Release { release } => {
                SectionContent::Release { release: release.clone() }
            },
        }
    }
}

/// What is said below "Latest Build" where there is none.
pub const NO_LATEST_BUILD: &'static str = "No builds are available for the selected app.";

/// The latest run, where it published something to the selected target.
pub open spec fn published_run(
    p: AppStoreConnectWorkspaceProviderView,
    s: ServicesPageStateView,
) -> Option<RunPanelView> {
    match p.latest_run {
        Some(run) => if (run.workflow == "publish_testflight"@ || run.workflow
            == "publish_appstore"@) && run.target_id == s.selected_target_id {
            Some(RunPanelView { headline: run.headline, detail: run.detail })
        } else {
            None
        },
        None => None,
    }
}

/// The release section.
pub open spec fn release_content(
    p: AppStoreConnectWorkspaceProviderView,
    s: ServicesPageStateView,
) -> ReleaseContentView {
    ReleaseContentView {
        run: published_run(p, s),
        empty: if selected_app_of(p, s) is None {
            Some(
                EmptyPanelView {
                    title: "No app selected"@,
                    detail:
                        "Choose an app to publish a build from the shared workflow controls above."@,
                },
            )
        } else {
            None
        },
    }
}

/// A value, or that it is not set.
pub open spec fn or_not_set(value: Option<Seq<char>>) -> Seq<char> {
    match value {
        Some(value) => value,
        None => "Not Set"@,
    }
}

/// The panel of an app.
pub open spec fn app_details(app: AscAppSummaryView) -> AppDetailsView {
    AppDetailsView {
        name: app.name,
        bundle_id: app.bundle_id,
        rows: seq![
            DetailRowView { title: "SKU"@, value: app.sku },
            DetailRowView { title: "Primary Locale"@, value: or_not_set(app.primary_locale) },
            DetailRowView { title: "App ID"@, value: app.id },
        ],
    }
}

/// The panel of a build.
pub open spec fn build_details(build: AscBuildSummaryView) -> BuildDetailsView {
    BuildDetailsView {
        version: version_label(build),
        build: "Build "@ + build.build_number,
        rows: seq![
            DetailRowView { title: "Platform"@, value: platform_label(build.platform) },
            DetailRowView { title: "Status"@, value: status_summary(build) },
            DetailRowView { title: "Uploaded"@, value: date_label(build.uploaded_date) },
            DetailRowView {
                title: "Expires"@,
                value: or_not_set(
                    match build.expiration_date {
                        Some(date) => Some(date_label(date)),
                        None => None,
                    },
                ),
            },
        ],
    }
}

/// The overview section.
pub open spec fn overview_content(
    p: AppStoreConnectWorkspaceProviderView,
    s: ServicesPageStateView,
) -> OverviewContentView {
    match selected_app_of(p, s) {
        Some(app) => OverviewContentView::App {
            app: app_details(app),
            latest_build: match selected_build_of(p) {
                Some(build) => Some(build_details(build)),
                None => None,
            },
        },
        None => OverviewContentView::NoApp {
            panel: EmptyPanelView {
                title: "No app selected"@,
                detail: "Choose an app from the top bar to inspect its release data."@,
            },
        },
    }
}

/// What stands in the builds section.
pub open spec fn builds_body(
    p: AppStoreConnectWorkspaceProviderView,
    s: ServicesPageStateView,
) -> BuildsBodyView {
    match p.builds_state {
        LoadStateView::Loading => BuildsBodyView::Message {
            text: "Loading builds…"@,
            color: Color::Muted,
        },
        LoadStateView::Error(error) => BuildsBodyView::Failed {
            title: "Could not load builds"@,
            detail: error,
        },
        LoadStateView::Ready(list) => if selected_app_of(p, s) is None {
            BuildsBodyView::Message {
                text: "Select an app to load its builds."@,
                color: Color::Muted,
            }
        } else if list.builds.len() == 0 {
            BuildsBodyView::Message {
                text: "No builds were returned for the selected app."@,
                color: Color::Muted,
            }
        } else {
            BuildsBodyView::Table {
                rows: build_rows(list.builds),
                load_more: if list.next_page_url is Some || list.load_more_error is Some {
                    Some(
                        LoadMoreView {
                            error: list.load_more_error,
                            has_button: list.next_page_url is Some,
                            disabled: list.is_loading_more,
                        },
                    )
                } else {
                    None
                },
            }
        },
    }
}

/// The builds section.
pub open spec fn builds_content(
    p: AppStoreConnectWorkspaceProviderView,
    s: ServicesPageStateView,
) -> BuildsContentView {
    BuildsContentView {
        refresh_disabled: selected_app_of(p, s) is None,
        body: builds_body(p, s),
    }
}

/// The section that is selected. What is neither builds nor release is the overview.
pub open spec fn section_content(
    p: AppStoreConnectWorkspaceProviderView,
    s: ServicesPageStateView,
) -> SectionContentView {
    if s.navigation_id == "builds"@ {
        SectionContentView::Builds { builds: builds_content(p, s) }
    } else if s.navigation_id == "release"@ {
        SectionContentView::Release { release: release_content(p, s) }
    } else {
        SectionContentView::Overview { overview: overview_content(p, s) }
    }
}

/// A named value.
pub fn render_detail_row(title: &str, value: String) -> (r: DetailRow)
    ensures
        r.deep_view() == (DetailRowView { title: title@, value: value@ }),
{
    DetailRow { title: title.to_owned(), value }
}

/// A panel that says why there is nothing to see.
pub fn render_empty_panel(title: &str, detail: &str) -> (r: EmptyPanel)
    ensures
        r.deep_view() == (EmptyPanelView { title: title@, detail: detail@ }),
{
    EmptyPanel { title: title.to_owned(), detail: detail.to_owned() }
}

fn value_or_not_set(value: Option<String>) -> (r: String)
    ensures
        r@ == or_not_set(value.deep_view()),
{
    match value {
        Some(value) => value,
        None => "Not Set".to_owned(),
    }
}

fn render_app_details(app: &AscAppSummary) -> (r: AppDetails)
    ensures
        r.deep_view() == app_details(app.deep_view()),
{
    let mut rows: Vec<DetailRow> = Vec::new();
    rows.push(render_detail_row("SKU", app.sku.clone()));
    rows.push(
        render_detail_row("Primary Locale", value_or_not_set(opt_clone(&app.primary_locale))),
    );
    rows.push(render_detail_row("App ID", app.id.clone()));
    assert(rows.deep_view() =~= app_details(app.deep_view()).rows);
    AppDetails { name: app.name.clone(), bundle_id: app.bundle_id.clone(), rows }
}

fn render_build_details(build: &AscBuildSummary) -> (r: BuildDetails)
    ensures
        r.deep_view() == build_details(build.deep_view()),
{
    let expires = match &build.expiration_date {
        Some(date) => Some(format_build_date(date.as_str())),
        None => None,
    };
    let mut rows: Vec<DetailRow> = Vec::new();
    rows.push(render_detail_row("Platform", format_platform(&build.platform)));
    rows.push(render_detail_row("Status", build_status_summary(build)));
    rows.push(render_detail_row("Uploaded", format_build_date(build.uploaded_date.as_str())));
    rows.push(render_detail_row("Expires", value_or_not_set(expires)));
    assert(rows.deep_view() =~= build_details(build.deep_view()).rows);
    BuildDetails {
        version: format_version(build),
        build: cat2("Build ", build.build_number.as_str()),
        rows,
    }
}

impl AppStoreConnectWorkspaceProvider {
    /// The release section.
    pub fn render_release_content(&self, state: &ServicesPageState) -> (r: ReleaseContent)
        ensures
            r.deep_view() == release_content(self.deep_view(), state.deep_view()),
    {
        let run = match &self.latest_run {
            Some(run) => if (str_eq(run.workflow.as_str(), "publish_testflight") || str_eq(
                run.workflow.as_str(),
                "publish_appstore",
            )) && opt_eq(&run.target_id, &state.selected_target_id) {
                Some(RunPanel { headline: run.headline.clone(), detail: run.detail.clone() })
            } else {
                None
            },
            None => None,
        };
        let empty = if self.selected_app(state).is_none() {
            Some(
                render_empty_panel(
                    "No app selected",
                    "Choose an app to publish a build from the shared workflow controls above.",
                ),
            )
        } else {
            None
        };
        ReleaseContent { run, empty }
    }

    /// The overview section.
    pub fn render_overview_content(&self, state: &ServicesPageState) -> (r: OverviewContent)
        ensures
            r.deep_view() == overview_content(self.deep_view(), state.deep_view()),
    {
        match self.selected_app(state) {
            Some(app) => OverviewContent::App {
                app: render_app_details(&app),
                latest_build: match self.selected_build() {
                    Some(build) => Some(render_build_details(build)),
                    None => None,
                },
            },
            None => OverviewContent::NoApp {
                panel: render_empty_panel(
                    "No app selected",
                    "Choose an app from the top bar to inspect its release data.",
                ),
            },
        }
    }

    /// The builds section.
    pub fn render_builds_content(&self, state: &ServicesPageState) -> (r: BuildsContent)
        ensures
            r.deep_view() == builds_content(self.deep_view(), state.deep_view()),
    {
        let no_app = self.selected_app(state).is_none();
        let body = match &self.builds_state {
            LoadState::Loading => BuildsBody::Message {
                text: "Loading builds…".to_owned(),
                color: Color::Muted,
            },
            LoadState::Error(error) => BuildsBody::Failed {
                title: "Could not load builds".to_owned(),
                detail: error.clone(),
            },
            LoadState::Ready(list) => if no_app {
                BuildsBody::Message {
                    text: "Select an app to load its builds.".to_owned(),
                    color: Color::Muted,
                }
            } else if list.builds.len() == 0 {
                BuildsBody::Message {
                    text: "No builds were returned for the selected app.".to_owned(),
                    color: Color::Muted,
                }
            } else {
                let has_next_page = list.next_page_url.is_some();
                BuildsBody::Table {
                    rows: render_builds_table(&list.builds),
                    load_more: if has_next_page || list.load_more_error.is_some() {
                        Some(
                            LoadMore {
                                error: opt_clone(&list.load_more_error),
                                has_button: has_next_page,
                                disabled: list.is_loading_more,
                            },
                        )
                    } else {
                        None
                    },
                }
            },
        };
        BuildsContent { refresh_disabled: no_app, body }
    }

    /// The section that is selected.
    pub fn render_section(&self, state: &ServicesPageState) -> (r: SectionContent)
        ensures
            r.deep_view() == section_content(self.deep_view(), state.deep_view()),
    {
        if str_eq(state.navigation_id.as_str(), "builds") {
            SectionContent::Builds { builds: self.render_builds_content(state) }
        } else if str_eq(state.navigation_id.as_str(), "release") {
            SectionContent::Release { release: self.render_release_content(state) }
        } else {
            SectionContent::Overview { overview: self.render_overview_content(state) }
        }
    }
}

} // verus!
