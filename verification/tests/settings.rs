use std::collections::BTreeMap;
use zed_oxc::json::{JsonObject, JsonValue};
use zed_oxc::lsp::{
    custom_command, initialization_options, server_env, workspace_configuration, CommandSettings,
    LspSettings, ZedLspSupport, OXFMT_SERVER_ID, OXLINT_SERVER_ID,
};
use zed_oxc::oxfmt::ZedOxfmtLsp;
use zed_oxc::oxlint::ZedOxlintLsp;

fn text(s: &str) -> JsonValue {
    JsonValue::String(s.to_string())
}

fn object(members: Vec<(&str, JsonValue)>) -> JsonValue {
    let mut o = JsonObject::new();
    for (k, v) in members {
        o.insert(k.to_string(), v);
    }
    JsonValue::Object(o)
}

fn member<'a>(v: &'a JsonValue, key: &str) -> &'a JsonValue {
    v.get(key).expect("member present")
}

fn strings(items: &[&str]) -> Vec<String> {
    items.iter().map(|s| s.to_string()).collect()
}

fn vars(items: &[(&str, &str)]) -> Vec<(String, String)> {
    items.iter().map(|(k, v)| (k.to_string(), v.to_string())).collect()
}

fn binary_settings(path: Option<&str>, arguments: Option<&[&str]>, env: Option<&[(&str, &str)]>) -> LspSettings {
    LspSettings {
        binary: Some(CommandSettings {
            path: path.map(|p| p.to_string()),
            arguments: arguments.map(strings),
            env: env.map(vars),
        }),
        initialization_options: None,
        settings: None,
    }
}

#[test]
fn custom_commands_override_invalid_source_settings_and_allow_env_only_settings() {
    let mut settings = binary_settings(Some("/custom/oxlint"), Some(&["--lsp"]), None);
    settings.initialization_options = Some(object(vec![
        ("binarySource", text("invalid")),
        ("vpPath", text("missing")),
    ]));
    let command = custom_command(&settings, vars(&[("TEST", "value")])).unwrap().unwrap();
    assert_eq!(command.command, "/custom/oxlint");
    assert_eq!(command.args, ["--lsp"]);
    assert_eq!(command.env, vars(&[("TEST", "value")]));
    for binary in [
        binary_settings(Some("oxlint"), None, None),
        binary_settings(None, Some(&["--lsp"]), None),
    ] {
        assert!(custom_command(&binary, vec![]).is_err());
    }
    assert!(custom_command(&binary_settings(None, None, Some(&[("TEST", "value")])), vec![])
        .unwrap()
        .is_none());
}

fn vite_plus_user_options(key: &str) -> JsonValue {
    object(vec![
        ("binarySource", text("vite-plus")),
        ("vpPath", text("/custom/vp")),
        (
            "settings",
            object(vec![
                (key, JsonValue::Bool(false)),
                ("run", text("onSave")),
                ("configPath", text("custom.json")),
            ]),
        ),
    ])
}

#[test]
fn vite_plus_overrides_nested_config_at_initialization_and_configuration() {
    for (tool, key) in [
        (OXLINT_SERVER_ID, "disableNestedConfig"),
        (OXFMT_SERVER_ID, "fmt.disableNestedConfig"),
    ] {
        let user_options = vite_plus_user_options(key);
        let options = initialization_options(Some(vite_plus_user_options(key)), tool, true).unwrap();
        assert_eq!(member(member(&options, "settings"), key), &JsonValue::Bool(true));
        assert_eq!(member(member(&options, "settings"), "run"), &text("onSave"));
        assert!(options.get("binarySource").is_none());
        assert!(options.get("vpPath").is_none());
        assert_eq!(member(member(&user_options, "settings"), key), &JsonValue::Bool(false));
        let config = workspace_configuration(
            LspSettings {
                binary: None,
                initialization_options: Some(user_options),
                settings: Some(object(vec![(key, JsonValue::Bool(false)), ("run", text("onType"))])),
            },
            tool,
            true,
        )
        .unwrap();
        assert_eq!(member(&config, key), &JsonValue::Bool(true));
        assert_eq!(member(&config, "run"), &text("onType"));
        assert_eq!(member(&config, "configPath"), &text("custom.json"));
        for value in [None, Some(JsonValue::Null), Some(object(vec![("settings", JsonValue::Null)]))] {
            assert_eq!(
                member(member(&initialization_options(value, tool, true).unwrap(), "settings"), key),
                &JsonValue::Bool(true)
            );
        }
    }
}

fn standalone_user_options() -> JsonValue {
    object(vec![(
        "settings",
        object(vec![
            ("disableNestedConfig", JsonValue::Bool(false)),
            ("fmt.disableNestedConfig", JsonValue::Bool(false)),
        ]),
    )])
}

#[test]
fn standalone_configuration_preserves_user_values() {
    assert_eq!(
        initialization_options(Some(standalone_user_options()), OXLINT_SERVER_ID, false),
        Some(standalone_user_options())
    );
    assert_eq!(
        workspace_configuration(
            LspSettings {
                binary: None,
                initialization_options: Some(standalone_user_options()),
                settings: None,
            },
            OXLINT_SERVER_ID,
            false
        ),
        Some(object(vec![
            ("disableNestedConfig", JsonValue::Bool(false)),
            ("fmt.disableNestedConfig", JsonValue::Bool(false)),
        ]))
    );
    assert_eq!(initialization_options(None, OXLINT_SERVER_ID, false), None);
}

#[test]
fn tool_sources_are_separate_for_each_worktree() {
    let mut lint = ZedOxlintLsp::default();
    let mut fmt = ZedOxfmtLsp::default();
    lint.sources_mut().insert(1, true);
    lint.sources_mut().insert(2, false);
    fmt.sources_mut().insert(1, false);
    assert_eq!(lint.sources().get(&1), Some(&true));
    assert_eq!(lint.sources().get(&2), Some(&false));
    assert_eq!(fmt.sources().get(&1), Some(&false));
}

#[test]
fn environment_overrides_preserve_shell_and_resolve_tsgolint_paths() {
    let settings = binary_settings(
        None,
        None,
        Some(&[("Path", "/custom/bin"), ("OXLINT_TSGOLINT_PATH", "tools/tsgolint")]),
    );
    let shell = vars(&[("PATH", "/shell/bin"), ("SHELL_SETTING", "kept")]);
    let env: BTreeMap<_, _> =
        server_env(&settings, shell, "/repo", OXLINT_SERVER_ID).into_iter().collect();
    assert_eq!(env["PATH"], "/custom/bin");
    assert_eq!(env["SHELL_SETTING"], "kept");
    assert_eq!(env["OXLINT_TSGOLINT_PATH"], "/repo/tools/tsgolint");
    assert!(!env.contains_key("Path"));
    for path in ["/absolute/tsgolint", r"C:\tools\tsgolint.exe", r"\\server\share\tsgolint.exe"] {
        let settings = binary_settings(None, None, Some(&[("OXLINT_TSGOLINT_PATH", path)]));
        assert_eq!(
            server_env(&settings, vec![], "/repo", OXLINT_SERVER_ID),
            vars(&[("OXLINT_TSGOLINT_PATH", path)])
        );
    }
}
