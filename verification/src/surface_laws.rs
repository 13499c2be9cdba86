//! What the surface of the services shows, said of what there is to show.

use crate::appearance::{Color, IconName, Severity};
use crate::asc_apps::{AscAppSummary, AscAppSummaryView};
use crate::asc_builds::{build_rows, date_label, platform_label, status_summary};
use crate::asc_builds::{AscBuildListStateView, AscBuildSummaryView};
use crate::asc_provider::{auth_ui, resource_menu_of, selected_app_of, workflow_ui};
use crate::asc_provider::AppStoreConnectWorkspaceProviderView;
use crate::asc_sections::{app_details, build_details, section_content, BuildsBodyView};
use crate::asc_sections::{OverviewContentView, SectionContentView};
use crate::hub::{ServiceInputDescriptorView, ServiceInputKind, ServiceProviderDescriptor};
use crate::hub::{ServiceRunDescriptorView, ServiceRunState};
use crate::load_state::LoadStateView;
use crate::lookup::{lemma_first_is_found, HasId};
use crate::provider_laws::{names_app_at, names_no_app};
use crate::service_auth::{ServiceAuthFieldStateView, ServiceAuthFormStateView};
use crate::service_auth::{ServiceAuthStatusSummaryView, ServiceAuthUiModelView, ToggleState};
use crate::service_workflow::{ServiceWorkflowFieldStateView, ServiceWorkflowFormStateView};
use crate::service_workflow::{ServiceWorkflowOption, ServiceWorkflowOptionView};
use crate::service_workflow::{ServiceWorkflowRunSummaryView, ServiceWorkflowUiActionView};
use crate::service_workflow::ServiceWorkflowUiModelView;
use crate::services_laws::provider_at;
use crate::services_page::ServicesPageView;
use crate::services_provider::{ServiceResourceMenuModelView, ServicesPageStateView};
use crate::services_surface::{auth_footer, auth_form_model, icon_of, labelled, option_menu};
use crate::services_surface::{provider_content, provider_menu, resource_menu, run_line};
use crate::services_surface::{severity_color, sidebar_controls, status_tooltip, workflow_surface};
use crate::services_surface::{AuthButtonView, FormFieldView};
use crate::text_laws::lemma_joined;
use vstd::prelude::*;

verus! {

/// A label stands alone, or with what there is to add in brackets behind it.
pub proof fn lemma_labelled(label: Seq<char>, detail: Seq<char>)
    ensures
        labelled(label, None) == label,
        labelled(label, Some(detail)) == label + " ("@ + detail + ")"@,
{
}

/// Each kind of section has an icon of its own; what is none of them has the globe.
pub proof fn lemma_icons(navigation_id: Seq<char>)
    ensures
        icon_of("overview"@) == IconName::Info,
        icon_of("builds"@) == IconName::Box,
        icon_of("release"@) == IconName::ArrowCircle,
        navigation_id != "overview"@ && navigation_id != "builds"@ && navigation_id != "release"@
            ==> icon_of(navigation_id) == IconName::Globe,
{
    reveal_strlit("overview");
    reveal_strlit("builds");
    reveal_strlit("release");
    assert("overview"@[0] == 'o' && "builds"@[0] == 'b' && "release"@[0] == 'r');
}

/// A severity has the colour of its name.
pub proof fn lemma_severity_color()
    ensures
        severity_color(Severity::Success) == Color::Success,
        severity_color(Severity::Warning) == Color::Warning,
        severity_color(Severity::Error) == Color::Error,
        severity_color(Severity::Info) == Color::Info,
{
}

/// The tooltip has a line for the headline, one for the detail, and one for each warning.
pub proof fn lemma_tooltip_says_it_all(
    status: ServiceAuthStatusSummaryView,
    warning: Seq<char>,
)
    ensures
        status.warnings.len() == 0 ==> status_tooltip(status) == status.headline + "\n"@
            + status.detail,
        status_tooltip(
            ServiceAuthStatusSummaryView { warnings: status.warnings.push(warning), ..status },
        ) == status_tooltip(status) + "\n"@ + warning,
{
    let head = seq![status.headline, status.detail];
    if status.warnings.len() == 0 {
        assert(head + status.warnings =~= seq![status.headline].push(status.detail));
        lemma_joined(seq![status.headline], status.detail, "\n"@);
        lemma_joined(Seq::empty(), status.headline, "\n"@);
    }
    lemma_joined(head + status.warnings, warning, "\n"@);
    assert(head + status.warnings.push(warning) =~= (head + status.warnings).push(warning));
}

/// The menu of providers lists every provider, in order, and is labelled with the selected one.
pub proof fn lemma_provider_menu(page: ServicesPageView, q: int, i: int)
    requires
        provider_at(page.providers, page.state.provider_id, q),
        0 <= i < page.providers.len(),
    ensures
        ({
            let menu = provider_menu(page);
            &&& menu.title == "Provider"@
            &&& menu.current_label == page.providers[q].label
            &&& menu.entries.len() == page.providers.len()
            &&& menu.entries[i].id == page.providers[i].id
            &&& menu.entries[i].label == page.providers[i].label
        }),
{
    let providers = page.providers;
    assert forall|j: int| 0 <= j < providers.len() implies ServiceProviderDescriptor::view_id(
        #[trigger] providers[j],
    ) == providers[j].id by {}
    lemma_first_is_found::<ServiceProviderDescriptor>(providers, page.state.provider_id, q);
}

/// The menu of resources lists every resource, in order, with its detail.
pub proof fn lemma_resource_menu(model: ServiceResourceMenuModelView, i: int)
    requires
        0 <= i < model.entries.len(),
    ensures
        ({
            let menu = resource_menu(model);
            let entry = model.entries[i];
            &&& menu.title == model.singular_label
            &&& menu.current_label == model.current_label
            &&& menu.entries.len() == model.entries.len()
            &&& menu.entries[i].id == entry.id
            &&& entry.detail is None ==> menu.entries[i].label == entry.label
            &&& (entry.detail matches Some(detail) ==> menu.entries[i].label == entry.label
                + " ("@ + detail + ")"@)
        }),
{
}

/// The sidebar has a row for each section of the provider, in order, by which it is chosen, and
/// marks the one that is selected.
pub proof fn lemma_sidebar_lists_the_sections(
    page: ServicesPageView,
    pane: AppStoreConnectWorkspaceProviderView,
    q: int,
    i: int,
)
    requires
        provider_at(page.providers, page.state.provider_id, q),
        0 <= i < page.providers[q].shell.navigation_items.len(),
    ensures
        ({
            let rows = sidebar_controls(page, pane).navigation;
            let item = page.providers[q].shell.navigation_items[i];
            &&& rows.len() == page.providers[q].shell.navigation_items.len()
            &&& rows[i].navigation_id == item.id
            &&& rows[i].element_id == "services-nav-"@ + item.id
            &&& rows[i].label == item.label
            &&& rows[i].icon == icon_of(item.id)
            &&& rows[i].selected == (page.state.navigation_id == item.id)
        }),
{
    let providers = page.providers;
    assert forall|j: int| 0 <= j < providers.len() implies ServiceProviderDescriptor::view_id(
        #[trigger] providers[j],
    ) == providers[j].id by {}
    lemma_first_is_found::<ServiceProviderDescriptor>(providers, page.state.provider_id, q);
}

/// The sidebar carries the menu of providers, that of the selected provider's resources where it has
/// any, and its sign-in; the page carries its workflows and its selected section.
pub proof fn lemma_surface_is_that_of_the_pages(
    page: ServicesPageView,
    pane: AppStoreConnectWorkspaceProviderView,
)
    ensures
        ({
            let controls = sidebar_controls(page, pane);
            let content = provider_content(page, pane);
            &&& controls.provider_menu == provider_menu(page)
            &&& controls.footer == auth_footer(auth_ui(pane))
            &&& pane.descriptor.shell.resource_kind is None ==> controls.resource_menu is None
            &&& pane.descriptor.shell.resource_kind is Some ==> (
            controls.resource_menu matches Some(menu) && menu == resource_menu(
                resource_menu_of(pane, page.state).unwrap(),
            ))
            &&& content.workflow == workflow_ui(pane, page.state)
            &&& content.section == section_content(pane, page.state)
        }),
{
}

/// A field is shown as what it is: a line of text under its key, with a button to browse where it is
/// a path, or a box under its key with its label and its tick.
pub open spec fn shows_input(
    shown: FormFieldView,
    input: ServiceInputDescriptorView,
    value: Option<ToggleState>,
    form: Seq<char>,
) -> bool {
    match shown {
        FormFieldView::Text { field_key, browse_id } => {
            &&& value is None
            &&& field_key == input.key
            &&& input.kind == ServiceInputKind::FilePath ==> browse_id == Some(
                "browse-"@ + form + "-"@ + input.key,
            )
            &&& input.kind != ServiceInputKind::FilePath ==> browse_id is None
        },
        FormFieldView::Checkbox { element_id, field_key, label, value: tick } => {
            &&& value == Some(tick)
            &&& element_id == form + "-toggle-"@ + input.key
            &&& field_key == input.key
            &&& label == input.label
        },
    }
}

/// The form to sign in shows every field, in order, and takes nothing while it waits.
pub proof fn lemma_auth_form_shows_its_fields(
    form: ServiceAuthFormStateView,
    submit_label: Seq<char>,
    i: int,
)
    ensures
        ({
            let model = auth_form_model(form, submit_label);
            &&& model.fields.len() == form.fields.len()
            &&& model.submit_label == submit_label
            &&& model.disabled == form.pending
            &&& 0 <= i < form.fields.len() ==> (match form.fields[i] {
                ServiceAuthFieldStateView::Text { descriptor, .. } => shows_input(
                    model.fields[i],
                    descriptor,
                    None,
                    "auth"@,
                ),
                ServiceAuthFieldStateView::Toggle { descriptor, value } => shows_input(
                    model.fields[i],
                    descriptor,
                    Some(value),
                    "auth"@,
                ),
            })
        }),
{
}

/// A user who is signed in can sign in again from a menu, and sign out where that is offered; one
/// who is not can sign in by a button, unless it is under way. The form is shown while it is open.
pub proof fn lemma_footer_offers_what_can_be_done(model: ServiceAuthUiModelView)
    ensures
        ({
            let footer = auth_footer(model);
            let signed_in = model.status.authenticated;
            &&& footer.indicator_color == severity_color(model.status.severity)
            &&& footer.tooltip == status_tooltip(model.status)
            &&& footer.detail == model.status.detail
            &&& footer.error == model.form.error_message
            &&& signed_in ==> footer.button == (AuthButtonView::Overflow {
                label: model.reauthenticate_label,
            })
            &&& !signed_in ==> footer.button == (AuthButtonView::Open {
                label: model.authenticate_label,
                disabled: model.form.pending,
            })
            &&& signed_in && model.form.logout_available ==> footer.logout_label == Some(
                model.logout_label,
            )
            &&& !signed_in || !model.form.logout_available ==> footer.logout_label is None
            &&& !model.form.expanded ==> footer.form is None
            &&& model.form.expanded ==> (footer.form matches Some(form) && form == auth_form_model(
                model.form,
                if signed_in {
                    model.reauthenticate_label
                } else {
                    model.authenticate_label
                },
            ))
        }),
{
}

/// The option at `k` is the first that `id` names.
pub open spec fn names_option_at(
    options: Seq<ServiceWorkflowOptionView>,
    id: Option<Seq<char>>,
    k: int,
) -> bool {
    &&& 0 <= k < options.len()
    &&& id == Some(options[k].id)
    &&& forall|j: int| 0 <= j < k ==> id != Some((#[trigger] options[j]).id)
}

/// A menu of options lists each, in order, to select it; it is labelled with the one that is
/// selected, or with its own title. There is none where there is nothing to choose.
pub proof fn lemma_option_menu(
    title: Seq<char>,
    options: Seq<ServiceWorkflowOptionView>,
    selected_id: Option<Seq<char>>,
    k: int,
    i: int,
)
    ensures
        ({
            let targets = option_menu(title, options, selected_id, true);
            let workflows = option_menu(title, options, selected_id, false);
            &&& options.len() == 0 ==> targets is None && workflows is None
            &&& options.len() > 0 ==> targets is Some && workflows is Some && ({
                let targets = targets.unwrap();
                let workflows = workflows.unwrap();
                &&& targets.title == title && workflows.title == title
                &&& names_option_at(options, selected_id, k) ==> targets.current_label
                    == options[k].label && workflows.current_label == options[k].label
                &&& (forall|j: int|
                    0 <= j < options.len() ==> selected_id != Some((#[trigger] options[j]).id))
                    ==> targets.current_label == title && workflows.current_label == title
                &&& targets.entries.len() == options.len() && workflows.entries.len()
                    == options.len()
                &&& 0 <= i < options.len() ==> ({
                    &&& targets.entries[i].action == (ServiceWorkflowUiActionView::SelectTarget {
                        target_id: options[i].id,
                    })
                    &&& workflows.entries[i].action
                        == (ServiceWorkflowUiActionView::SelectWorkflow {
                        workflow_id: options[i].id,
                    })
                    &&& targets.entries[i].label == workflows.entries[i].label
                    &&& options[i].detail is None ==> targets.entries[i].label == options[i].label
                    &&& (options[i].detail matches Some(detail) ==> targets.entries[i].label
                        == options[i].label + " ("@ + detail + ")"@)
                })
            })
        }),
{
    assert forall|j: int| 0 <= j < options.len() implies ServiceWorkflowOption::view_id(
        #[trigger] options[j],
    ) == options[j].id by {}
    if names_option_at(options, selected_id, k) {
        lemma_first_is_found::<ServiceWorkflowOption>(options, selected_id.unwrap(), k);
    } else if (forall|j: int|
        0 <= j < options.len() ==> selected_id != Some((#[trigger] options[j]).id))
        && selected_id is Some {
        lemma_first_is_found::<ServiceWorkflowOption>(
            options,
            selected_id.unwrap(),
            options.len() as int,
        );
    }
}

/// A run is told in a line, in the colour of how it went.
pub proof fn lemma_run_line(run: ServiceWorkflowRunSummaryView)
    ensures
        run.state == ServiceRunState::Pending || run.state == ServiceRunState::Running ==> run_line(
            run,
        ).color == Color::Muted,
        run.state == ServiceRunState::Succeeded ==> run_line(run).color == Color::Success,
        run.state == ServiceRunState::Failed ==> run_line(run).color == Color::Error,
        run.detail.len() == 0 ==> run_line(run).text == run.headline,
        run.detail.len() > 0 ==> run_line(run).text == run.headline + ": "@ + run.detail,
{
}

/// The controls of the workflows show the targets, the workflows, the fields of the form and the
/// run. A workflow can be started exactly where one is selected, nothing stands against it and none
/// is being started.
pub proof fn lemma_workflow_surface(
    model: ServiceWorkflowUiModelView,
    form: ServiceWorkflowFormStateView,
    i: int,
)
    ensures
        ({
            let surface = workflow_surface(model, form);
            &&& surface.target_menu == option_menu(
                model.target_label,
                model.targets,
                model.selected_target_id,
                true,
            )
            &&& surface.workflow_menu == option_menu(
                model.workflow_label,
                model.workflows,
                model.selected_workflow_id,
                false,
            )
            &&& surface.fields.len() == form.fields.len()
            &&& 0 <= i < form.fields.len() ==> (match form.fields[i] {
                ServiceWorkflowFieldStateView::Text { descriptor } => shows_input(
                    surface.fields[i],
                    descriptor,
                    None,
                    "workflow"@,
                ),
                ServiceWorkflowFieldStateView::Toggle { descriptor, value } => shows_input(
                    surface.fields[i],
                    descriptor,
                    Some(value),
                    "workflow"@,
                ),
            })
            &&& surface.fields_disabled == form.pending
            &&& model.run is None ==> surface.run is None
            &&& (model.run matches Some(run) ==> surface.run == Some(run_line(run)))
            &&& surface.disabled_reason == model.disabled_reason
            &&& surface.execute_label == model.execute_label
            &&& surface.error == form.error_message
            &&& !surface.execute_disabled <==> !form.pending && model.selected_workflow_id is Some
                && model.disabled_reason is None
        }),
{
}

proof fn lemma_app_is_selected(
    p: AppStoreConnectWorkspaceProviderView,
    s: ServicesPageStateView,
    k: int,
)
    ensures
        p.apps_state matches LoadStateView::Ready(apps) ==> (names_app_at(
            apps,
            s.selected_resource_id,
            k,
        ) ==> selected_app_of(p, s) == Some(apps[k])),
        p.apps_state matches LoadStateView::Ready(apps) ==> (names_no_app(
            apps,
            s.selected_resource_id,
        ) ==> selected_app_of(p, s) is None),
        !(p.apps_state is Ready) ==> selected_app_of(p, s) is None,
{
    let id = s.selected_resource_id;
    match p.apps_state {
        LoadStateView::Ready(apps) => {
            assert forall|j: int| 0 <= j < apps.len() implies AscAppSummary::view_id(
                #[trigger] apps[j],
            ) == apps[j].id by {}
            if names_app_at(apps, id, k) {
                lemma_first_is_found::<AscAppSummary>(apps, id.unwrap(), k);
            } else if names_no_app(apps, id) && id is Some {
                lemma_first_is_found::<AscAppSummary>(apps, id.unwrap(), apps.len() as int);
            }
        },
        _ => {
            if id is Some {
                lemma_first_is_found::<AscAppSummary>(Seq::empty(), id.unwrap(), 0);
            }
        },
    }
}

/// The section that is shown is the selected one; what is neither builds nor release is the
/// overview.
pub proof fn lemma_selected_section_is_shown(
    p: AppStoreConnectWorkspaceProviderView,
    s: ServicesPageStateView,
)
    ensures
        s.navigation_id == "builds"@ ==> section_content(p, s) is Builds,
        s.navigation_id == "release"@ ==> section_content(p, s) is Release,
        s.navigation_id != "builds"@ && s.navigation_id != "release"@ ==> section_content(p, s)
            is Overview,
{
    reveal_strlit("builds");
    reveal_strlit("release");
    assert("builds"@[0] == 'b' && "release"@[0] == 'r');
}

/// The overview shows the selected app, and its newest build where there is one.
pub proof fn lemma_overview_shows_the_selected_app(
    p: AppStoreConnectWorkspaceProviderView,
    s: ServicesPageStateView,
    apps: Seq<AscAppSummaryView>,
    k: int,
    list: AscBuildListStateView,
)
    requires
        s.navigation_id == "overview"@,
        p.apps_state == LoadStateView::Ready(apps),
        names_app_at(apps, s.selected_resource_id, k),
    ensures
        section_content(p, s) matches SectionContentView::Overview { overview }
            && overview matches OverviewContentView::App { app, latest_build } && app == app_details(
            apps[k],
        ) && (p.builds_state == LoadStateView::Ready(list) && list.builds.len() > 0 ==> latest_build
            == Some(build_details(list.builds[0]))) && (p.builds_state == LoadStateView::Ready(list)
            && list.builds.len() == 0 ==> latest_build is None) && (!(p.builds_state is Ready)
            ==> latest_build is None),
{
    reveal_strlit("overview");
    reveal_strlit("builds");
    reveal_strlit("release");
    assert("overview"@[0] == 'o' && "builds"@[0] == 'b' && "release"@[0] == 'r');
    lemma_app_is_selected(p, s, k);
}

/// Where no app is selected, every section says so.
pub proof fn lemma_no_app_is_said(
    p: AppStoreConnectWorkspaceProviderView,
    s: ServicesPageStateView,
)
    requires
        p.apps_state matches LoadStateView::Ready(apps) ==> names_no_app(
            apps,
            s.selected_resource_id,
        ),
    ensures
        section_content(p, s) matches SectionContentView::Overview { overview } ==> (
        overview matches OverviewContentView::NoApp { panel } && panel.title == "No app selected"@
            && panel.detail == "Choose an app from the top bar to inspect its release data."@),
        section_content(p, s) matches SectionContentView::Release { release } ==> (
        release.empty matches Some(panel) && panel.title == "No app selected"@ && panel.detail
            == "Choose an app to publish a build from the shared workflow controls above."@),
        section_content(p, s) matches SectionContentView::Builds { builds }
            ==> builds.refresh_disabled && (p.builds_state is Ready ==> builds.body
            == (BuildsBodyView::Message {
            text: "Select an app to load its builds."@,
            color: Color::Muted,
        })),
{
    lemma_app_is_selected(p, s, 0);
}

/// The panel of an app says what the app says.
pub proof fn lemma_app_details(app: AscAppSummaryView)
    ensures
        ({
            let panel = app_details(app);
            &&& panel.name == app.name && panel.bundle_id == app.bundle_id
            &&& panel.rows.len() == 3
            &&& panel.rows[0].title == "SKU"@ && panel.rows[0].value == app.sku
            &&& panel.rows[1].title == "Primary Locale"@ && panel.rows[1].value == (
            match app.primary_locale {
                Some(locale) => locale,
                None => "Not Set"@,
            })
            &&& panel.rows[2].title == "App ID"@ && panel.rows[2].value == app.id
        }),
{
}

/// The panel of a build says what the build says.
pub proof fn lemma_build_details(build: AscBuildSummaryView)
    ensures
        ({
            let panel = build_details(build);
            &&& panel.version == (match build.marketing_version {
                Some(version) => version,
                None => "Unknown Version"@,
            })
            &&& panel.build == "Build "@ + build.build_number
            &&& panel.rows.len() == 4
            &&& panel.rows[0].title == "Platform"@ && panel.rows[0].value == platform_label(
                build.platform,
            )
            &&& panel.rows[1].title == "Status"@ && panel.rows[1].value == status_summary(build)
            &&& panel.rows[2].title == "Uploaded"@ && panel.rows[2].value == date_label(
                build.uploaded_date,
            )
            &&& panel.rows[3].title == "Expires"@ && panel.rows[3].value == (
            match build.expiration_date {
                Some(date) => date_label(date),
                None => "Not Set"@,
            })
        }),
{
}

/// The builds of the selected app are shown in a table, with a way to load more of them where there
/// are more, and with what went wrong with that.
pub proof fn lemma_builds_are_shown(
    p: AppStoreConnectWorkspaceProviderView,
    s: ServicesPageStateView,
    apps: Seq<AscAppSummaryView>,
    k: int,
    list: AscBuildListStateView,
)
    requires
        s.navigation_id == "builds"@,
        p.apps_state == LoadStateView::Ready(apps),
        names_app_at(apps, s.selected_resource_id, k),
        p.builds_state == LoadStateView::Ready(list),
    ensures
        section_content(p, s) matches SectionContentView::Builds { builds }
            && !builds.refresh_disabled && (list.builds.len() == 0 ==> builds.body
            == (BuildsBodyView::Message {
            text: "No builds were returned for the selected app."@,
            color: Color::Muted,
        })) && (list.builds.len() > 0 ==> (builds.body matches BuildsBodyView::Table {
            rows,
            load_more,
        } && rows == build_rows(list.builds) && (list.next_page_url is None && list.load_more_error
            is None ==> load_more is None) && (list.next_page_url is Some || list.load_more_error
            is Some ==> (load_more matches Some(more) && more.error == list.load_more_error
            && more.has_button == (list.next_page_url is Some) && more.disabled
            == list.is_loading_more)))),
{
    lemma_app_is_selected(p, s, k);
}

/// Builds that are on their way, or could not be had, are said to be so.
pub proof fn lemma_missing_builds_are_said(
    p: AppStoreConnectWorkspaceProviderView,
    s: ServicesPageStateView,
    error: Seq<char>,
)
    requires
        s.navigation_id == "builds"@,
    ensures
        section_content(p, s) matches SectionContentView::Builds { builds } && (p.builds_state
            is Loading ==> builds.body == (BuildsBodyView::Message {
            text: "Loading builds…"@,
            color: Color::Muted,
        })) && (p.builds_state == LoadStateView::<AscBuildListStateView>::Error(error)
            ==> builds.body == (BuildsBodyView::Failed {
            title: "Could not load builds"@,
            detail: error,
        })),
{
}

/// The release section shows the latest run exactly where it published something to the selected
/// target, and nothing in its place where an app is selected.
pub proof fn lemma_release_shows_what_was_published(
    p: AppStoreConnectWorkspaceProviderView,
    s: ServicesPageStateView,
    run: ServiceRunDescriptorView,
    k: int,
)
    requires
        s.navigation_id == "release"@,
    ensures
        section_content(p, s) matches SectionContentView::Release { release } && (p.latest_run
            is None ==> release.run is None) && (p.latest_run == Some(run) && run.target_id
            == s.selected_target_id && (run.workflow == "publish_testflight"@ || run.workflow
            == "publish_appstore"@) ==> (release.run matches Some(panel) && panel.headline
            == run.headline && panel.detail == run.detail)) && (p.latest_run == Some(run) && !(
        run.target_id == s.selected_target_id && (run.workflow == "publish_testflight"@
            || run.workflow == "publish_appstore"@)) ==> release.run is None),
        p.apps_state matches LoadStateView::Ready(apps) ==> (names_app_at(
            apps,
            s.selected_resource_id,
            k,
        ) ==> (section_content(p, s) matches SectionContentView::Release { release }
            && release.empty is None)),
{
    reveal_strlit("builds");
    reveal_strlit("release");
    assert("builds"@[0] == 'b' && "release"@[0] == 'r');
    lemma_app_is_selected(p, s, k);
}

} // verus!
