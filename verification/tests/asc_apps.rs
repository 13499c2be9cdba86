use glass_core::asc_apps::{
    apps_from_response, list_apps_request, AscAppAttributes, AscAppRecord, AscAppsResponse,
};

fn record(id: &str, name: &str, bundle_id: &str) -> AscAppRecord {
    AscAppRecord {
        id: id.to_string(),
        attributes: AscAppAttributes {
            name: name.to_string(),
            bundle_id: bundle_id.to_string(),
            sku: format!("sku-{id}"),
            primary_locale: Some("en-US".to_string()),
        },
    }
}

#[test]
fn sorts_apps_by_name_and_bundle() {
    let apps = apps_from_response(AscAppsResponse {
        data: vec![
            record("1", "beta", "b"),
            record("2", "alpha", "z"),
            record("3", "alpha", "a"),
            record("4", "Zeta", "a"),
            record("5", "", "q"),
            record("6", "älpha", "a"),
        ],
    });
    let ids: Vec<&str> = apps.iter().map(|app| app.id.as_str()).collect();
    assert_eq!(ids, vec!["5", "4", "3", "2", "1", "6"]);
    assert_eq!(apps[0].sku, "sku-5");
    assert_eq!(apps[0].primary_locale.as_deref(), Some("en-US"));
}

#[test]
fn keeps_equal_apps_in_their_order() {
    let apps = apps_from_response(AscAppsResponse {
        data: vec![
            record("3", "same", "same"),
            record("9", "other", "x"),
            record("1", "same", "same"),
            record("2", "same", "same"),
        ],
    });
    let ids: Vec<&str> = apps.iter().map(|app| app.id.as_str()).collect();
    assert_eq!(ids, vec!["9", "3", "1", "2"]);
}

#[test]
fn sorts_as_the_standard_library_does() {
    let names = ["b", "a", "ab", "", "aa", "B", "é", "z", "a\u{10ffff}", "a\u{ffff}"];
    let data: Vec<AscAppRecord> = names
        .iter()
        .map(|name| record(name, name, name))
        .collect();
    let mut expected: Vec<String> = names.iter().map(|name| name.to_string()).collect();
    expected.sort();
    let apps = apps_from_response(AscAppsResponse { data });
    let sorted: Vec<String> = apps.into_iter().map(|app| app.name).collect();
    assert_eq!(sorted, expected);
}

#[test]
fn lists_no_apps() {
    assert!(apps_from_response(AscAppsResponse { data: vec![] }).is_empty());
}

#[test]
fn asks_for_all_apps() {
    let request = list_apps_request();
    assert_eq!(request.provider_id, "app-store-connect");
    assert_eq!(request.operation, "list_apps");
    assert_eq!(
        request.input.get("paginate").map(|value| value.as_str()),
        Some("true")
    );
    assert_eq!(request.input.len(), 1);
}
