use glass_core::appearance::Color;
use glass_core::asc_apps::AscAppSummary;
use glass_core::asc_page::{
    artifact_matches_kind, artifact_operation_name, builds_from_response, chosen_path,
    command_failure, execute_terminal_plan, pre_release_version_request, run_release,
    sanitize_for_id, start_error, summarize_auth_status, upload_artifact, validation_label,
    version_error, AppStoreConnectPage, AscAuthStatusResponse, AscAuthSummary, AscBuildAttributes,
    AscBuildRecord, AscBuildSummary, AscBuildsResponse, AscCredential, ListPanel, PathChoice,
    ReleasePrompt, ServiceCommandPlan, Upload, UploadPrompt,
};
use glass_core::cef_settings::Platform;
use glass_core::file_path::extension;
use glass_core::hub::ServiceArtifactKind;

fn app(id: &str) -> AscAppSummary {
    AscAppSummary {
        id: id.to_string(),
        name: format!("App {id}"),
        bundle_id: format!("dev.{id}"),
        sku: "SKU".to_string(),
        primary_locale: None,
    }
}

fn build(id: &str) -> AscBuildSummary {
    AscBuildSummary {
        id: id.to_string(),
        build_number: "7".to_string(),
        processing_state: "VALID".to_string(),
        uploaded_date: "today".to_string(),
        expiration_date: None,
        min_os_version: None,
    }
}

fn summary() -> AscAuthSummary {
    AscAuthSummary {
        headline: "headline".to_string(),
        detail: "detail".to_string(),
        healthy: true,
    }
}

fn loaded_page() -> AppStoreConnectPage {
    let mut page = AppStoreConnectPage::new();
    let next = page.finish_overview(Ok(summary()), Ok(vec![app("a"), app("b")]));
    assert_eq!(next.as_deref(), Some("a"));
    page
}

fn message(panel: ListPanel) -> String {
    match panel {
        ListPanel::Message { status } => status.headline,
        ListPanel::List { .. } => panic!("expected a message"),
    }
}

#[test]
fn matches_supported_artifact_extensions() {
    assert!(artifact_matches_kind(
        "/tmp/App.ipa",
        ServiceArtifactKind::Ipa,
        Platform::Other
    ));
    assert!(artifact_matches_kind(
        "/tmp/App.PKG",
        ServiceArtifactKind::Pkg,
        Platform::Other
    ));
    assert!(!artifact_matches_kind(
        "/tmp/App.app",
        ServiceArtifactKind::Ipa,
        Platform::Other
    ));
}

#[test]
fn sanitizes_terminal_item_ids() {
    assert_eq!(
        sanitize_for_id("release run / build"),
        "release-run---build"
    );
}

#[test]
fn reads_extensions_as_the_standard_library_does() {
    for path in [
        "App.ipa", "a/b.ipa", "a/b.ipa/", "a/b.ipa/.", "./a.ipa", ".ipa", "a/.ipa", "..ipa",
        "a.ipa/..", "..", ".", "", "/", "a.b.ipa", "a.ipa.", "a.ipa/b", "a//b.IPA//", "ipa",
        "a/..ipa", "x..ipa", "...ipa",
    ] {
        let expected = std::path::Path::new(path)
            .extension()
            .and_then(|extension| extension.to_str())
            .is_some_and(|extension| extension.eq_ignore_ascii_case("ipa"));
        assert_eq!(
            artifact_matches_kind(path, ServiceArtifactKind::Ipa, Platform::Other),
            expected,
            "{path}"
        );
        assert!(!artifact_matches_kind(path, ServiceArtifactKind::Pkg, Platform::Other));
        assert!(!artifact_matches_kind(path, ServiceArtifactKind::AppBundle, Platform::Other));
        assert!(!artifact_matches_kind(path, ServiceArtifactKind::Binary, Platform::Other));
    }
}

#[test]
fn reads_paths_as_windows_writes_them() {
    let matches =
        |path: &str| artifact_matches_kind(path, ServiceArtifactKind::Ipa, Platform::Windows);
    for path in [
        "App.ipa",
        "C:\\x\\App.ipa",
        "C:/x/App.IPA",
        "C:\\x\\App.ipa\\",
        "C:\\x\\App.ipa/.",
        "C:App.ipa",
        "x.d\\App.ipa",
        "\\\\server\\share\\App.ipa",
        "//server/share/App.ipa",
        "\\\\?\\C:\\App.ipa",
        "\\\\?\\C:\\x/.ipa",
        "\\\\?\\UNC\\server\\share\\App.ipa",
        "\\\\.\\device\\App.ipa",
        "\\\\server\\\\App.ipa",
        "1:App.ipa",
    ] {
        assert!(matches(path), "{path}");
    }
    for path in [
        "C:\\x\\.ipa",
        "C:/x/.ipa",
        "C:.ipa",
        "x\\.ipa",
        "App.ipa\\x",
        "App.ipa\\..",
        "\\\\server\\share.ipa",
        "\\\\server\\share.ipa\\",
        "\\\\?\\App.ipa",
        "\\\\?\\C:\\App.ipa\\.",
        "\\\\?\\C:/.ipa",
        "\\\\?\\UNC\\server\\share.ipa",
        "\\\\.\\App.ipa",
        "\\\\",
        "",
    ] {
        assert!(!matches(path), "{path}");
    }
    for platform in [Platform::MacOs, Platform::Other] {
        let ipa = ServiceArtifactKind::Ipa;
        assert!(artifact_matches_kind("C:\\x\\.ipa", ipa, platform));
        assert!(!artifact_matches_kind("/x/.ipa", ipa, platform));
    }
}

#[test]
fn reads_the_extension_itself() {
    assert_eq!(extension("a/b.tar.gz", Platform::Other).as_deref(), Some("gz"));
    assert_eq!(extension("a.b\\c", Platform::Other).as_deref(), Some("b\\c"));
    assert_eq!(extension("a.b\\c", Platform::Windows), None);
    assert_eq!(extension("a.", Platform::Windows).as_deref(), Some(""));
}

#[test]
fn sanitizes_once_and_for_all() {
    for text in ["", "abc", "a b", "é.Z9", "--", "\n"] {
        let once = sanitize_for_id(text);
        assert_eq!(sanitize_for_id(&once), once);
        assert_eq!(once.chars().count(), text.chars().count());
    }
    assert_eq!(sanitize_for_id("é.Z9"), "--Z9");
}

#[test]
fn names_artifacts() {
    assert_eq!(artifact_operation_name(ServiceArtifactKind::Ipa), "ipa");
    assert_eq!(artifact_operation_name(ServiceArtifactKind::Pkg), "pkg");
    assert_eq!(
        artifact_operation_name(ServiceArtifactKind::AppBundle),
        "app-bundle"
    );
    assert_eq!(
        artifact_operation_name(ServiceArtifactKind::Binary),
        "binary"
    );
}

#[test]
fn uploads_matching_files_only() {
    let upload = upload_artifact(&app("a"), ServiceArtifactKind::Pkg, "x.pkg".to_string(), Platform::MacOs);
    match upload {
        Upload::Run { operation } => {
            assert_eq!(operation.operation_id, "upload-build-a-pkg");
            assert_eq!(operation.request.operation, "upload_build");
            assert_eq!(
                operation.request.input.get("wait").map(|v| v.as_str()),
                Some("true")
            );
            let artifact = operation.request.artifact.unwrap();
            assert_eq!(artifact.kind, ServiceArtifactKind::Pkg);
            assert_eq!(artifact.path, "x.pkg");
        }
        Upload::Refused { message } => panic!("{message}"),
    }
    let refused = |kind| upload_artifact(&app("a"), kind, "x.zip".to_string(), Platform::MacOs);
    assert_eq!(
        refused(ServiceArtifactKind::Ipa),
        Upload::Refused {
            message: "The selected file does not match the expected .ipa artifact.".to_string()
        }
    );
    assert_eq!(
        refused(ServiceArtifactKind::Pkg),
        Upload::Refused {
            message: "The selected file does not match the expected .pkg artifact.".to_string()
        }
    );
    assert_eq!(
        refused(ServiceArtifactKind::Binary),
        Upload::Refused {
            message: "The selected file does not match the expected supported artifact artifact."
                .to_string()
        }
    );
}

#[test]
fn releases_for_real_only_when_confirmed() {
    let operation = run_release(
        &app("a"),
        &build("b1"),
        "1.0".to_string(),
        "/meta".to_string(),
        false,
    );
    assert_eq!(operation.operation_id, "release-run-a-b1-dry-run");
    let input = &operation.request.input;
    assert_eq!(input.len(), 4);
    assert_eq!(input.get("dry_run").map(|v| v.as_str()), Some("true"));
    assert_eq!(input.get("version").map(|v| v.as_str()), Some("1.0"));
    assert_eq!(input.get("build").map(|v| v.as_str()), Some("b1"));
    assert_eq!(input.get("metadata_dir").map(|v| v.as_str()), Some("/meta"));
    assert_eq!(operation.request.operation, "release_run");

    let operation = run_release(
        &app("a"),
        &build("b1"),
        "1.0".to_string(),
        "/meta".to_string(),
        true,
    );
    assert_eq!(operation.operation_id, "release-run-a-b1-confirm");
    assert_eq!(
        operation.request.input.get("dry_run").map(|v| v.as_str()),
        Some("false")
    );
}

#[test]
fn runs_commands_in_a_terminal() {
    let task = execute_terminal_plan(
        "upload-build-a/1-ipa",
        ServiceCommandPlan {
            label: "Upload".to_string(),
            command: "asc".to_string(),
            args: vec!["builds".to_string(), "upload".to_string()],
        },
    );
    assert_eq!(task.id, "service-hub-upload-build-a-1-ipa");
    assert_eq!(task.full_label, "Upload");
    assert_eq!(task.label, "Upload");
    assert_eq!(task.command, "asc");
    assert_eq!(task.args.len(), 2);
    assert_eq!(task.command_label, "asc builds upload");
}

#[test]
fn opens_with_nothing_loaded() {
    let page = AppStoreConnectPage::new();
    let model = page.render();
    assert_eq!(
        model.auth.headline,
        "Checking App Store Connect authentication…"
    );
    assert_eq!(model.auth.color, Color::Muted);
    assert_eq!(message(model.apps), "Loading apps…");
    assert_eq!(message(model.builds), "Select an app to load its builds");
    assert!(model.upload_disabled);
    assert!(model.release_disabled);
    assert!(model.refresh_builds_disabled);
    assert_eq!(model.selected_app_label, "Selected app: none");
    assert_eq!(model.selected_build_label, "Selected build: none");
}

#[test]
fn loads_apps_and_then_builds() {
    let mut page = loaded_page();
    assert_eq!(message(page.render_builds_panel()), "Loading builds…");
    let request = page.load_builds_for_app("a".to_string()).unwrap();
    assert_eq!(request.operation, "list_builds");
    assert_eq!(
        request.input.get("paginate").map(|v| v.as_str()),
        Some("true")
    );
    assert_eq!(
        request.input.get("sort").map(|v| v.as_str()),
        Some("-uploadedDate")
    );
    let mut second = build("b2");
    second.expiration_date = Some("tomorrow".to_string());
    page.finish_builds(Ok(vec![build("b1"), second]));
    let model = page.render();
    assert_eq!(model.auth.headline, "headline");
    assert_eq!(model.auth.color, Color::Success);
    assert_eq!(model.auth.detail.as_deref(), Some("detail"));
    assert!(!model.release_disabled);
    assert_eq!(model.selected_app_label, "Selected app: App a (dev.a)");
    assert_eq!(model.selected_build_label, "Selected build: 7 (b1)");
    match model.builds {
        ListPanel::List { entries } => {
            assert_eq!(entries[0].element_id, "asc-build-b1");
            assert_eq!(entries[0].title, "Build 7");
            assert_eq!(entries[0].subtitle, "VALID · uploaded today");
            assert!(entries[0].selected);
            assert_eq!(
                entries[1].subtitle,
                "VALID · uploaded today · expires tomorrow"
            );
            assert!(!entries[1].selected);
        }
        ListPanel::Message { status } => panic!("{}", status.headline),
    }
    match model.apps {
        ListPanel::List { entries } => {
            assert_eq!(entries[0].element_id, "asc-app-a");
            assert_eq!(entries[0].subtitle, "dev.a · a");
            assert!(entries[0].selected);
            assert!(!entries[1].selected);
        }
        ListPanel::Message { status } => panic!("{}", status.headline),
    }
}

#[test]
fn selects_apps_and_builds() {
    let mut page = loaded_page();
    assert!(page.select_app("a".to_string()).is_none());
    assert!(page.select_app("b".to_string()).is_some());
    assert_eq!(page.selected_app_id.as_deref(), Some("b"));
    assert!(page.select_app("zzz".to_string()).is_none());
    assert_eq!(page.selected_app_id.as_deref(), Some("b"));
    assert_eq!(
        message(page.render_builds_panel()),
        "No builds were returned for the selected app"
    );
    page.finish_builds(Ok(vec![build("b1"), build("b2")]));
    page.select_build("b2".to_string());
    assert_eq!(page.selected_build().unwrap().id, "b2");
    assert!(page.refresh_builds().is_some());
    assert!(page.selected_build().is_none());
    page.finish_builds(Err("offline".to_string()));
    assert_eq!(message(page.render_builds_panel()), "Could not load builds");
    assert!(page.selected_build_id.is_none());
}

#[test]
fn recovers_the_selection_after_a_refresh() {
    let mut page = loaded_page();
    page.select_app("b".to_string());
    page.refresh_overview();
    assert!(page.selected_build_id.is_none());
    let next = page.finish_overview(Ok(summary()), Ok(vec![app("c"), app("b")]));
    assert_eq!(next.as_deref(), Some("b"));
    page.refresh_overview();
    let next = page.finish_overview(Ok(summary()), Ok(vec![app("c")]));
    assert_eq!(next.as_deref(), Some("c"));
    page.refresh_overview();
    let next = page.finish_overview(Err("no".to_string()), Ok(vec![]));
    assert_eq!(next, None);
    assert_eq!(
        message(page.render_apps_panel()),
        "No apps were returned by App Store Connect"
    );
    assert_eq!(
        page.render_auth_status().headline,
        "App Store Connect authentication check failed"
    );
    let next = page.finish_overview(Ok(summary()), Err("down".to_string()));
    assert_eq!(next, None);
    assert_eq!(message(page.render_apps_panel()), "Could not load apps");
    assert!(page.refresh_builds().is_none());
}

#[test]
fn asks_for_what_an_upload_or_a_release_needs() {
    let page = AppStoreConnectPage::new();
    assert_eq!(
        page.choose_upload_artifact(ServiceArtifactKind::Ipa),
        UploadPrompt::Refused {
            message: "Select an App Store Connect app before uploading a build.".to_string()
        }
    );
    assert_eq!(
        page.choose_metadata_directory(),
        ReleasePrompt::Refused {
            message: "Select an App Store Connect app before running a release.".to_string()
        }
    );
    let mut page = loaded_page();
    assert_eq!(
        page.choose_metadata_directory(),
        ReleasePrompt::Refused {
            message: "Select a build before running a release.".to_string()
        }
    );
    assert_eq!(
        page.choose_upload_artifact(ServiceArtifactKind::Ipa),
        UploadPrompt::AskForFile {
            app: app("a"),
            prompt: "Select an .ipa file to upload".to_string()
        }
    );
    assert_eq!(
        page.choose_upload_artifact(ServiceArtifactKind::Pkg),
        UploadPrompt::AskForFile {
            app: app("a"),
            prompt: "Select a .pkg file to upload".to_string()
        }
    );
    assert_eq!(
        page.choose_upload_artifact(ServiceArtifactKind::Binary),
        UploadPrompt::Refused {
            message: "Only .ipa and .pkg uploads are supported.".to_string()
        }
    );
    page.finish_builds(Ok(vec![build("b1")]));
    assert_eq!(
        page.choose_metadata_directory(),
        ReleasePrompt::AskForMetadata {
            app: app("a"),
            build: build("b1")
        }
    );
}

#[test]
fn summarizes_the_default_credential_alone() {
    let credential = |name: &str, is_default: bool, validation: Option<&str>| AscCredential {
        name: name.to_string(),
        is_default,
        validation: validation.map(|text| text.to_string()),
    };
    let summary = summarize_auth_status(AscAuthStatusResponse {
        storage_backend: "Keychain".to_string(),
        credentials: vec![
            credential("First", false, Some("works")),
            credential("Second", true, Some("Works")),
        ],
    });
    assert_eq!(summary.headline, "Authentication validated via Keychain");
    assert_eq!(summary.detail, "Default credential: Second");
    assert!(summary.healthy);
    let summary = summarize_auth_status(AscAuthStatusResponse {
        storage_backend: "Keychain".to_string(),
        credentials: vec![credential("First", false, Some("works"))],
    });
    assert_eq!(
        summary.headline,
        "Authentication status: unknown via Keychain"
    );
    assert_eq!(summary.detail, "Default credential: No default credential");
    assert!(!summary.healthy);
    assert_eq!(validation_label("WORKS"), "Authentication validated");
}

#[test]
fn lists_the_builds_of_a_response() {
    let builds = builds_from_response(AscBuildsResponse {
        data: vec![AscBuildRecord {
            id: "b1".to_string(),
            attributes: AscBuildAttributes {
                version: "7".to_string(),
                uploaded_date: "today".to_string(),
                expiration_date: None,
                processing_state: "VALID".to_string(),
                min_os_version: Some("15.0".to_string()),
            },
        }],
    });
    assert_eq!(builds.len(), 1);
    assert_eq!(builds[0].build_number, "7");
    assert_eq!(builds[0].min_os_version.as_deref(), Some("15.0"));
}

#[test]
fn asks_for_the_version_of_a_build() {
    let request = pre_release_version_request(&build("b1"));
    assert_eq!(request.operation, "build_pre_release_version");
    let resource = request.resource.unwrap();
    assert_eq!(resource.kind, "build");
    assert_eq!(resource.external_id, "b1");
    assert_eq!(resource.label, "7");
}

#[test]
fn says_why_a_command_failed() {
    assert_eq!(command_failure("asc", "out", " err \n"), "err");
    assert_eq!(command_failure("asc", " out ", " \n"), "out");
    assert_eq!(command_failure("asc", "", ""), "`asc` exited unsuccessfully");
    assert_eq!(start_error("asc"), "Failed to start `asc`");
    assert_eq!(
        version_error("gone"),
        "Could not determine the selected build's app version: gone"
    );
}

#[test]
fn takes_the_last_path_that_was_picked() {
    assert_eq!(
        chosen_path(Ok(Some(vec!["a".to_string(), "b".to_string()]))),
        PathChoice::Path {
            path: "b".to_string()
        }
    );
    assert_eq!(chosen_path(Ok(Some(vec![]))), PathChoice::Nothing);
    assert_eq!(chosen_path(Ok(None)), PathChoice::Nothing);
    assert_eq!(
        chosen_path(Err("no".to_string())),
        PathChoice::Error {
            message: "no".to_string()
        }
    );
}
