use zed_oxc::json::{JsonObject, JsonValue};
use zed_oxc::vite_plus::{
    declares_package, detect_project, inspect_args, inspection_error, installation_info, standalone_path,
    BinarySource, Options,
};

fn text(s: &str) -> JsonValue {
    JsonValue::String(s.to_string())
}

fn object(members: Vec<(&str, JsonValue)>) -> JsonValue {
    let mut o = JsonObject::new();
    for (k, v) in members {
        o.insert(k.to_string(), v);
    }
    JsonValue::Object(o)
}

fn manifest(section: &str, name: &str, version: &str) -> JsonValue {
    object(vec![(section, object(vec![(name, text(version))]))])
}

fn dir(root: &str, package: Option<JsonValue>, extra: Vec<(&str, JsonValue)>) -> JsonValue {
    let mut members = vec![("root", text(root))];
    if let Some(p) = package {
        members.push(("package", p));
    }
    members.extend(extra);
    object(members)
}

fn options(source: BinarySource, vp_path: Option<&str>) -> Options {
    Options { source, vp_path: vp_path.map(|s| s.to_string()) }
}

#[test]
fn binary_source_is_read_from_the_options() {
    assert_eq!(Options::from_initialization(None), Ok(options(BinarySource::Auto, None)));
    let o = object(vec![("binarySource", text("vite-plus")), ("vpPath", text("/vp"))]);
    assert_eq!(Options::from_initialization(Some(&o)), Ok(options(BinarySource::VitePlus, Some("/vp"))));
    let o = object(vec![("binarySource", text("auto")), ("vpPath", JsonValue::Null)]);
    assert_eq!(Options::from_initialization(Some(&o)), Ok(options(BinarySource::Auto, None)));
    let o = object(vec![("binarySource", JsonValue::Null)]);
    assert_eq!(Options::from_settings(Some(&o)), Ok(options(BinarySource::Auto, None)));
    let o = object(vec![("binarySource", text("oxc")), ("vpPath", JsonValue::Bool(true))]);
    assert_eq!(Options::from_initialization(Some(&o)), Ok(options(BinarySource::Oxc, None)));
    assert_eq!(Options::from_initialization(Some(&JsonValue::Null)), Ok(options(BinarySource::Auto, None)));
}

#[test]
fn invalid_options_are_refused() {
    let source_error = Err("binarySource must be auto, vite-plus, or oxc.".to_string());
    let path_error = Err("vpPath must be a non-empty executable path.".to_string());
    let o = object(vec![("binarySource", text("invalid"))]);
    assert_eq!(Options::from_initialization(Some(&o)), source_error);
    let o = object(vec![("binarySource", JsonValue::Number("1".to_string())), ("vpPath", text(""))]);
    assert_eq!(Options::from_settings(Some(&o)), source_error);
    let o = object(vec![("vpPath", text(""))]);
    assert_eq!(Options::from_initialization(Some(&o)), path_error);
    let o = object(vec![("vpPath", JsonValue::Array(vec![]))]);
    assert_eq!(Options::from_initialization(Some(&o)), path_error);
}

#[test]
fn packages_are_declared_with_a_non_empty_version() {
    assert!(declares_package(&manifest("dependencies", "oxlint", "1.0.0"), "oxlint"));
    assert!(declares_package(&manifest("devDependencies", "oxlint", "^1"), "oxlint"));
    assert!(!declares_package(&manifest("dependencies", "oxlint", ""), "oxlint"));
    assert!(!declares_package(&manifest("peerDependencies", "oxlint", "1"), "oxlint"));
    assert!(!declares_package(&manifest("dependencies", "oxfmt", "1"), "oxlint"));
    let numeric = object(vec![("dependencies", object(vec![("oxlint", JsonValue::Number("1".to_string()))]))]);
    assert!(!declares_package(&numeric, "oxlint"));
    assert!(!declares_package(&JsonValue::Null, "oxlint"));
}

#[test]
fn standalone_server_comes_from_the_declaring_directory_upwards() {
    let dirs = vec![
        dir("/a", None, vec![("standalone", text("/a/too-early"))]),
        dir("/a/b", Some(manifest("devDependencies", "oxlint", "1")), vec![]),
        dir("/a/b/c", None, vec![("standalone", text("/bin/oxlint"))]),
    ];
    assert_eq!(standalone_path(&dirs, "oxlint"), Some("/bin/oxlint"));
    assert_eq!(standalone_path(&dirs, "oxfmt"), None);
    let without = vec![dir("/a", Some(manifest("dependencies", "oxlint", "1")), vec![])];
    assert_eq!(standalone_path(&without, "oxlint"), None);
}

#[test]
fn vite_plus_project_is_the_declaring_directory() {
    let dirs = vec![
        dir("/repo/app", Some(object(vec![])), vec![]),
        dir("/repo", Some(manifest("devDependencies", "vite-plus", "1")), vec![]),
        dir("/", None, vec![("vp", text("/repo/node_modules/.bin/vp"))]),
    ];
    let project = detect_project(&dirs, &options(BinarySource::Auto, None)).unwrap();
    assert_eq!(project.root, "/repo");
    assert_eq!(project.vp_path.as_deref(), Some("/repo/node_modules/.bin/vp"));
    assert_eq!(detect_project(&dirs, &options(BinarySource::Oxc, None)), None);
    let forced = detect_project(&dirs, &options(BinarySource::VitePlus, None)).unwrap();
    assert_eq!(forced.root, "/repo/app");
    let configured = detect_project(&dirs, &options(BinarySource::Auto, Some("/custom/vp"))).unwrap();
    assert_eq!(configured.root, "/repo/app");
    assert_eq!(configured.vp_path.as_deref(), Some("/custom/vp"));
}

#[test]
fn no_project_without_a_declaration_or_a_root() {
    let dirs = vec![dir("/repo", Some(manifest("dependencies", "oxlint", "1")), vec![])];
    assert_eq!(detect_project(&dirs, &options(BinarySource::Auto, None)), None);
    let none_with_manifest = vec![dir("/first", None, vec![]), dir("/second", None, vec![])];
    let forced = detect_project(&none_with_manifest, &options(BinarySource::VitePlus, None)).unwrap();
    assert_eq!(forced.root, "/first");
    assert_eq!(forced.vp_path, None);
    assert_eq!(detect_project(&[], &options(BinarySource::VitePlus, None)), None);
    let rootless = vec![object(vec![("package", object(vec![]))])];
    assert_eq!(detect_project(&rootless, &options(BinarySource::VitePlus, None)), None);
}

#[test]
fn inspection_runs_the_script_and_reports_failures() {
    assert_eq!(
        inspect_args("SCRIPT", "ancestors", "/repo", "oxlint"),
        vec!["-e", "SCRIPT", "--", "ancestors", "/repo", "oxlint"]
    );
    assert_eq!(inspection_error("oxlint", Some(0), "ignored"), None);
    assert_eq!(
        inspection_error("oxlint", Some(1), "boom"),
        Some("Could not inspect the oxlint installation: boom".to_string())
    );
    assert_eq!(
        inspection_error("vp", None, ""),
        Some("Could not inspect the vp installation: ".to_string())
    );
    assert_eq!(installation_info(Ok(JsonValue::Null)), Ok(JsonValue::Null));
    assert_eq!(
        installation_info(Err("EOF".to_string())),
        Err("Invalid installation information: EOF".to_string())
    );
}
