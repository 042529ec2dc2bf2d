use dotnetvm::pin::{pin_file_contents, pin_file_name};

#[test]
fn pin_document_exact() {
    assert_eq!(
        pin_file_contents("8.0.100"),
        "{\n  \"sdk\": {\n    \"version\": \"8.0.100\"\n  }\n}"
    );
}

#[test]
fn pin_file_is_global_json() {
    assert_eq!(pin_file_name(), "global.json");
}

#[test]
fn pin_matches_the_pretty_serializer() {
    let mut sdk = serde_json::Map::new();
    sdk.insert(
        "version".to_string(),
        serde_json::Value::String("8.0.100".to_string()),
    );
    let mut root = serde_json::Map::new();
    root.insert("sdk".to_string(), serde_json::Value::Object(sdk));
    let expected = serde_json::to_string_pretty(&serde_json::Value::Object(root)).unwrap();
    assert_eq!(pin_file_contents("8.0.100"), expected);
}

#[test]
fn pin_version_round_trips_verbatim() {
    let versions = [
        "",
        "8.0.100",
        "not a version at all",
        "quote \" backslash \\ slash /",
        "line\nbreak\tand tab",
        "control\u{1}char",
        "unicode \u{e9}\u{1F600}",
        "   spaced   ",
    ];
    for v in versions {
        let doc = pin_file_contents(v);
        let parsed: serde_json::Value = serde_json::from_str(&doc).unwrap();
        assert_eq!(parsed["sdk"]["version"].as_str().unwrap(), v);
    }
}
