use glass_core::appearance::Color;
use glass_core::asc_apps::AscAppSummary;
use glass_core::asc_builds::{
    build_page_from_response, build_release_type, build_status_summary, builds_page_request,
    color_for_state, format_build_date, format_embedded_state, format_platform,
    format_processing_state, format_version, non_empty_string, render_build_status,
    render_builds_table, AscBuildAttributes, AscBuildListState, AscBuildRecord,
    AscBuildRelationship, AscBuildRelationships, AscBuildSummary, AscBuildsResponse,
    AscPaginationLinks, AscPreReleaseVersionAttributes, AscPreReleaseVersionRecord,
    AscRelatedResourceIdentifier,
};

fn record(id: &str, version_id: Option<&str>) -> AscBuildRecord {
    AscBuildRecord {
        id: id.to_string(),
        attributes: AscBuildAttributes {
            version: "42".to_string(),
            uploaded_date: "2026-04-05T12:34:56Z".to_string(),
            expiration_date: Some("2026-05-05T12:34:56Z".to_string()),
            processing_state: "VALID".to_string(),
        },
        relationships: AscBuildRelationships {
            pre_release_version: version_id.map(|id| AscBuildRelationship {
                data: Some(AscRelatedResourceIdentifier { id: id.to_string() }),
            }),
        },
    }
}

fn version(kind: &str, id: &str, version: &str) -> AscPreReleaseVersionRecord {
    AscPreReleaseVersionRecord {
        resource_type: kind.to_string(),
        id: id.to_string(),
        attributes: AscPreReleaseVersionAttributes {
            version: version.to_string(),
            platform: "IOS".to_string(),
        },
    }
}

fn build() -> AscBuildSummary {
    AscBuildSummary {
        id: "build-1".to_string(),
        build_number: "42".to_string(),
        marketing_version: None,
        platform: Some("MAC_OS".to_string()),
        processing_state: "IN_REVIEW".to_string(),
        uploaded_date: "2026-04-05T12:34:56Z".to_string(),
        expiration_date: None,
        testflight_internal_state: None,
        testflight_external_state: None,
        app_store_version_id: None,
        app_store_state: None,
    }
}

fn app() -> AscAppSummary {
    AscAppSummary {
        id: "app-1".to_string(),
        name: "Glass".to_string(),
        bundle_id: "dev.glass".to_string(),
        sku: "GLASS".to_string(),
        primary_locale: None,
    }
}

#[test]
fn parses_build_pages_without_eager_follow_up_requests() {
    let response = AscBuildsResponse {
        data: vec![AscBuildRecord {
            id: "build-1".to_string(),
            attributes: AscBuildAttributes {
                version: "42".to_string(),
                uploaded_date: "2026-04-05T12:34:56Z".to_string(),
                expiration_date: Some("2026-05-05T12:34:56Z".to_string()),
                processing_state: "VALID".to_string(),
            },
            relationships: AscBuildRelationships {
                pre_release_version: Some(AscBuildRelationship {
                    data: Some(AscRelatedResourceIdentifier {
                        id: "prv-1".to_string(),
                    }),
                }),
            },
        }],
        included: vec![AscPreReleaseVersionRecord {
            resource_type: "preReleaseVersions".to_string(),
            id: "prv-1".to_string(),
            attributes: AscPreReleaseVersionAttributes {
                version: "1.2.3".to_string(),
                platform: "IOS".to_string(),
            },
        }],
        links: AscPaginationLinks {
            next: "https://api.appstoreconnect.apple.com/v1/builds?cursor=AQ".to_string(),
        },
    };

    let page = build_page_from_response(response);

    assert_eq!(page.builds.len(), 1);
    assert_eq!(page.builds[0].marketing_version.as_deref(), Some("1.2.3"));
    assert_eq!(page.builds[0].platform.as_deref(), Some("IOS"));
    assert_eq!(
        page.next_page_url.as_deref(),
        Some("https://api.appstoreconnect.apple.com/v1/builds?cursor=AQ")
    );
    assert!(page.builds[0].testflight_external_state.is_none());
    assert!(page.builds[0].app_store_state.is_none());
}

#[test]
fn finds_the_last_version_under_an_identifier() {
    let page = build_page_from_response(AscBuildsResponse {
        data: vec![
            record("build-1", Some("prv-1")),
            record("build-2", None),
            record("build-3", Some("prv-9")),
        ],
        included: vec![
            version("preReleaseVersions", "prv-1", "1.0"),
            version("preReleaseVersions", "prv-1", "2.0"),
            version("betaGroups", "prv-1", "3.0"),
            version("betaGroups", "prv-9", "4.0"),
        ],
        links: AscPaginationLinks {
            next: "  ".to_string(),
        },
    });
    assert_eq!(page.builds.len(), 3);
    assert_eq!(page.builds[0].marketing_version.as_deref(), Some("2.0"));
    assert_eq!(page.builds[1].marketing_version, None);
    assert_eq!(page.builds[2].marketing_version, None);
    assert_eq!(page.builds[0].build_number, "42");
    assert_eq!(page.builds[0].processing_state, "VALID");
    assert_eq!(page.next_page_url, None);
}

#[test]
fn asks_for_the_newest_builds_or_for_a_page() {
    let first = builds_page_request(&app(), None);
    assert_eq!(first.operation, "list_builds");
    assert_eq!(first.input.len(), 2);
    assert_eq!(first.input.get("limit").map(|v| v.as_str()), Some("50"));
    assert_eq!(
        first.input.get("sort").map(|v| v.as_str()),
        Some("-uploadedDate")
    );
    let resource = first.resource.unwrap();
    assert_eq!(resource.provider_id, "app-store-connect");
    assert_eq!(resource.kind, "app");
    assert_eq!(resource.external_id, "app-1");
    assert_eq!(resource.label, "Glass");

    let next = builds_page_request(&app(), Some("https://next".to_string()));
    assert_eq!(next.input.len(), 1);
    assert_eq!(
        next.input.get("next").map(|v| v.as_str()),
        Some("https://next")
    );
}

#[test]
fn names_platforms() {
    let name = |platform: &str| format_platform(&Some(platform.to_string()));
    assert_eq!(name("IOS"), "iOS");
    assert_eq!(name("MAC_OS"), "macOS");
    assert_eq!(name("TV_OS"), "tvOS");
    assert_eq!(name("VISION_OS"), "visionOS");
    assert_eq!(name("WATCH_OS_NEXT"), "WATCH OS NEXT");
    assert_eq!(format_platform(&None), "Unknown");
}

#[test]
fn writes_states_out() {
    assert_eq!(format_processing_state("IN_REVIEW"), "In Review");
    assert_eq!(
        format_processing_state("__waiting__FOR_review_"),
        "Waiting For Review"
    );
    assert_eq!(format_processing_state(""), "");
    assert_eq!(format_processing_state("éTAT"), "état");
    assert_eq!(format_processing_state("___"), "");
    assert_eq!(format_processing_state("in_review"), "In Review");
    assert_eq!(format_processing_state("_IN_REVIEW_"), "In Review");
    assert_eq!(format_processing_state("IN__REVIEW"), "In Review");
    assert_eq!(
        format_embedded_state("TestFlight IN_REVIEW"),
        "TestFlight In Review"
    );
    assert_eq!(
        format_embedded_state("App Store READY_FOR_SALE"),
        "App Store ready For Sale"
    );
    assert_eq!(format_embedded_state("IN_REVIEW"), "In Review");
}

#[test]
fn shortens_dates() {
    assert_eq!(format_build_date("2026-04-05T12:34:56Z"), "2026-04-05 12:34");
    assert_eq!(format_build_date("2026-04-05"), "2026-04-05");
    assert_eq!(format_build_date("2026-04-05T1"), "2026-04-05 1");
}

#[test]
fn tells_where_a_build_is_released() {
    let mut build = build();
    assert_eq!(build_release_type(&build), "Unknown");
    build.testflight_internal_state = Some("READY".to_string());
    assert_eq!(build_release_type(&build), "TestFlight");
    build.app_store_version_id = Some("1".to_string());
    assert_eq!(build_release_type(&build), "TestFlight + App Store");
    build.testflight_internal_state = None;
    assert_eq!(build_release_type(&build), "App Store");
}

#[test]
fn sums_up_the_states_of_a_build() {
    let mut build = build();
    assert_eq!(build_status_summary(&build), "In Review");
    build.testflight_external_state = Some("IN_BETA_TESTING".to_string());
    build.app_store_state = Some("REJECTED".to_string());
    assert_eq!(
        build_status_summary(&build),
        "In Review · TF In Beta Testing · AS Rejected"
    );
    let lines = render_build_status(&build);
    assert_eq!(lines.len(), 3);
    assert_eq!(lines[0].text, "In Review");
    assert_eq!(lines[0].color, Color::Warning);
    assert_eq!(lines[1].text, "TestFlight In Beta Testing");
    assert_eq!(lines[1].color, Color::Success);
    assert_eq!(lines[2].text, "App Store rejected");
    assert_eq!(lines[2].color, Color::Error);
}

#[test]
fn colors_states_by_the_worst_that_they_tell() {
    assert_eq!(color_for_state("VALID"), Color::Success);
    assert_eq!(color_for_state("INVALID"), Color::Error);
    assert_eq!(color_for_state("processing_failed"), Color::Error);
    assert_eq!(color_for_state("READY_FOR_REVIEW"), Color::Warning);
    assert_eq!(color_for_state("ready_for_sale"), Color::Success);
    assert_eq!(color_for_state("DEVELOPER_REMOVED"), Color::Muted);
    assert_eq!(color_for_state(""), Color::Muted);
    for state in ["REJECTED", "INVALID", "FAILED", "ERROR"] {
        assert_eq!(color_for_state(state), Color::Error);
    }
    for state in [
        "WAITING",
        "IN_REVIEW",
        "FOR_REVIEW",
        "PROCESSING",
        "PENDING",
        "PREPARE",
        "SUBMITTED",
    ] {
        assert_eq!(color_for_state(state), Color::Warning);
    }
    for state in ["READY", "VALID", "ACTIVE", "APPROVED", "TESTING"] {
        assert_eq!(color_for_state(state), Color::Success);
        assert_eq!(color_for_state(&state.to_lowercase()), Color::Success);
    }
}

#[test]
fn lays_out_the_table() {
    let mut second = build();
    second.marketing_version = Some("1.2".to_string());
    second.expiration_date = Some("2026-05-05T12:34:56Z".to_string());
    let rows = render_builds_table(&vec![build(), second]);
    assert_eq!(rows.len(), 2);
    assert!(!rows[0].shaded);
    assert!(!rows[0].ruled);
    assert!(rows[1].shaded);
    assert!(rows[1].ruled);
    assert_eq!(rows[0].platform, "macOS");
    assert_eq!(rows[0].version, "Unknown Version");
    assert_eq!(rows[0].expires, None);
    assert_eq!(rows[1].version, "1.2");
    assert_eq!(rows[1].uploaded, "2026-04-05 12:34");
    assert_eq!(rows[1].expires.as_deref(), Some("Expires 2026-05-05 12:34"));
    assert_eq!(rows[1].status.len(), 1);
    assert_eq!(format_version(&build()), "Unknown Version");
}

#[test]
fn drops_empty_strings() {
    assert_eq!(non_empty_string(" \u{a0}\u{3000}\n".to_string()), None);
    assert_eq!(
        non_empty_string(" x y ".to_string()).as_deref(),
        Some("x y")
    );
}

#[test]
fn starts_with_no_builds() {
    let list = AscBuildListState::empty();
    assert!(list.builds.is_empty());
    assert!(list.next_page_url.is_none());
    assert!(!list.is_loading_more);
    assert!(list.load_more_error.is_none());
}
