use std::collections::BTreeMap;
use zed_oxc::json::{JsonObject, JsonValue};
use zed_oxc::lsp::{CommandSettings, LspSettings, OXFMT_SERVER_ID, OXLINT_SERVER_ID};
use zed_oxc::server::{
    command_start, command_step, config_start, config_step, probe_start, probe_step, update_start,
    update_step, CommandReply, CommandRequest, CommandState, ConfigKind, ConfigReply, ConfigRequest,
    InstallStatus, ProbeReply, ProbeRequest, ProbeState, UpdateReply, UpdateRequest, UpdateState,
};

fn text(s: &str) -> JsonValue {
    JsonValue::String(s.to_string())
}

fn object(members: Vec<(&str, JsonValue)>) -> JsonValue {
    let mut o = JsonObject::new();
    for (k, v) in members {
        o.insert(k.to_string(), v);
    }
    JsonValue::Object(o)
}

fn vars(items: &[(&str, &str)]) -> Vec<(String, String)> {
    items.iter().map(|(k, v)| (k.to_string(), v.to_string())).collect()
}

fn plain_settings() -> LspSettings {
    LspSettings { binary: None, initialization_options: None, settings: None }
}

fn vite_plus_dirs() -> JsonValue {
    JsonValue::Array(vec![object(vec![
        ("root", text("/repo")),
        ("package", object(vec![("devDependencies", object(vec![("vite-plus", text("1"))]))])),
    ])])
}

fn standalone_dirs(standalone: Option<&str>) -> JsonValue {
    let mut members = vec![
        ("root", text("/repo")),
        ("package", object(vec![("dependencies", object(vec![("oxlint", text("1"))]))])),
    ];
    if let Some(s) = standalone {
        members.push(("standalone", text(s)));
    }
    JsonValue::Array(vec![object(members)])
}

fn finished_command(request: CommandRequest) -> zed_oxc::lsp::Command {
    match request {
        CommandRequest::Finish(Ok(command)) => command,
        _ => panic!("the launch did not finish with a command"),
    }
}

fn finished_error(request: CommandRequest) -> String {
    match request {
        CommandRequest::Finish(Err(e)) => e,
        _ => panic!("the launch did not finish with an error"),
    }
}

/// Runs a launch from its start up to the node binary reply.
fn up_to_ancestors(sources: &mut BTreeMap<u64, bool>, package: &str) -> (CommandState, CommandRequest) {
    let (state, request) = command_start(sources, 7, "/repo".to_string(), vars(&[("HOME", "/h")]));
    assert!(matches!(request, CommandRequest::FetchSettings));
    let (state, request) = command_step(package, "LAUNCH", sources, state, CommandReply::Settings(Ok(plain_settings())));
    assert!(matches!(request, CommandRequest::FindNode));
    command_step(package, "LAUNCH", sources, state, CommandReply::NodeBinary(Ok("/node".to_string())))
}

#[test]
fn custom_command_launches_without_node_and_records_standalone() {
    let mut sources = BTreeMap::new();
    sources.insert(7, true);
    let (state, _) = command_start(&mut sources, 7, "/repo".to_string(), vars(&[("HOME", "/h")]));
    assert!(sources.get(&7).is_none());
    let settings = LspSettings {
        binary: Some(CommandSettings {
            path: Some("/my/oxlint".to_string()),
            arguments: Some(vec!["--lsp".to_string()]),
            env: Some(vars(&[("A", "1")])),
        }),
        initialization_options: Some(object(vec![("binarySource", text("bad"))])),
        settings: None,
    };
    let (state, request) = command_step(OXLINT_SERVER_ID, "LAUNCH", &mut sources, state, CommandReply::Settings(Ok(settings)));
    assert!(matches!(state, CommandState::Done));
    let command = finished_command(request);
    assert_eq!(command.command, "/my/oxlint");
    assert_eq!(command.args, vec!["--lsp"]);
    assert_eq!(command.env, vars(&[("A", "1"), ("HOME", "/h")]));
    assert_eq!(sources.get(&7), Some(&false));
}

#[test]
fn settings_and_option_errors_end_the_launch() {
    let mut sources = BTreeMap::new();
    let (state, _) = command_start(&mut sources, 1, "/r".to_string(), vec![]);
    let (_, request) = command_step(OXLINT_SERVER_ID, "L", &mut sources, state, CommandReply::Settings(Err("no settings".to_string())));
    assert_eq!(finished_error(request), "no settings");
    let (state, _) = command_start(&mut sources, 1, "/r".to_string(), vec![]);
    let settings = LspSettings {
        binary: None,
        initialization_options: Some(object(vec![("binarySource", text("bad"))])),
        settings: None,
    };
    let (_, request) = command_step(OXLINT_SERVER_ID, "L", &mut sources, state, CommandReply::Settings(Ok(settings)));
    assert_eq!(finished_error(request), "binarySource must be auto, vite-plus, or oxc.");
    let (state, _) = command_start(&mut sources, 1, "/r".to_string(), vec![]);
    let settings = LspSettings {
        binary: Some(CommandSettings { path: Some("/x".to_string()), arguments: None, env: None }),
        initialization_options: None,
        settings: None,
    };
    let (_, request) = command_step(OXLINT_SERVER_ID, "L", &mut sources, state, CommandReply::Settings(Ok(settings)));
    assert_eq!(
        finished_error(request),
        "When supplying binary.arguments, binary.path must be supplied (or vice-versa)."
    );
    assert!(sources.is_empty());
}

#[test]
fn vite_plus_project_launches_vp_and_records_vite_plus() {
    let mut sources = BTreeMap::new();
    let (state, request) = up_to_ancestors(&mut sources, OXLINT_SERVER_ID);
    match &request {
        CommandRequest::Inspect(q) => {
            assert_eq!(q.node, "/node");
            assert_eq!(q.mode, "ancestors");
            assert_eq!(q.path, "/repo");
            assert_eq!(q.tool, "oxlint");
            assert_eq!(q.env, vars(&[("HOME", "/h")]));
        }
        _ => panic!("expected an inspection"),
    }
    let (state, request) = command_step(OXLINT_SERVER_ID, "LAUNCH", &mut sources, state, CommandReply::Inspection(Ok(vite_plus_dirs())));
    match &request {
        CommandRequest::Inspect(q) => {
            assert_eq!(q.mode, "global");
            assert_eq!(q.tool, "vp");
            assert_eq!(q.path, "/repo");
        }
        _ => panic!("expected an inspection of vp"),
    }
    let executable = object(vec![("path", text("/bin/vp")), ("node", JsonValue::Bool(true))]);
    let (state, request) = command_step(OXLINT_SERVER_ID, "LAUNCH", &mut sources, state, CommandReply::Inspection(Ok(executable)));
    assert!(matches!(state, CommandState::Done));
    let command = finished_command(request);
    assert_eq!(command.command, "/node");
    assert_eq!(command.args, vec!["-e", "LAUNCH", "--", "/repo", "/bin/vp", "node", "lint"]);
    assert_eq!(sources.get(&7), Some(&true));
}

#[test]
fn native_vp_for_oxfmt_and_missing_vp_is_an_error() {
    let mut sources = BTreeMap::new();
    let (state, _) = up_to_ancestors(&mut sources, OXFMT_SERVER_ID);
    let (state, _) = command_step(OXFMT_SERVER_ID, "L", &mut sources, state, CommandReply::Inspection(Ok(vite_plus_dirs())));
    let executable = object(vec![("path", text("/bin/vp"))]);
    let (_, request) = command_step(OXFMT_SERVER_ID, "L", &mut sources, state, CommandReply::Inspection(Ok(executable)));
    assert_eq!(finished_command(request).args, vec!["-e", "L", "--", "/repo", "/bin/vp", "native", "fmt"]);
    let (state, _) = up_to_ancestors(&mut sources, OXFMT_SERVER_ID);
    let (state, _) = command_step(OXFMT_SERVER_ID, "L", &mut sources, state, CommandReply::Inspection(Ok(vite_plus_dirs())));
    let (_, request) = command_step(OXFMT_SERVER_ID, "L", &mut sources, state, CommandReply::Inspection(Ok(JsonValue::Null)));
    assert_eq!(
        finished_error(request),
        "Vite+ selected for /repo but vp was not found. Install dependencies (for example, pnpm install), or set initialization_options.vpPath, then restart the language server."
    );
    assert!(sources.get(&7).is_none());
}

#[test]
fn standalone_server_is_found_in_the_project() {
    let mut sources = BTreeMap::new();
    let (state, _) = up_to_ancestors(&mut sources, OXLINT_SERVER_ID);
    let (_, request) = command_step(OXLINT_SERVER_ID, "L", &mut sources, state, CommandReply::Inspection(Ok(standalone_dirs(Some("/repo/bin/oxlint")))));
    let command = finished_command(request);
    assert_eq!(command.command, "/node");
    assert_eq!(command.args, vec!["/repo/bin/oxlint", "--lsp"]);
    assert_eq!(sources.get(&7), Some(&false));
}

#[test]
fn without_a_project_server_the_installed_one_is_updated_and_used() {
    let mut sources = BTreeMap::new();
    let (state, _) = up_to_ancestors(&mut sources, OXLINT_SERVER_ID);
    let (state, request) = command_step(OXLINT_SERVER_ID, "L", &mut sources, state, CommandReply::Inspection(Ok(standalone_dirs(None))));
    assert!(matches!(request, CommandRequest::UpdateServer));
    let (state, request) = command_step(OXLINT_SERVER_ID, "L", &mut sources, state, CommandReply::Updated(Ok(())));
    assert!(matches!(request, CommandRequest::LocateInstalledServer));
    let (_, request) = command_step(OXLINT_SERVER_ID, "L", &mut sources, state, CommandReply::InstalledServer(Ok("/ext/oxlint".to_string())));
    assert_eq!(finished_command(request).args, vec!["/ext/oxlint", "--lsp"]);
    assert_eq!(sources.get(&7), Some(&false));
    let (state, _) = up_to_ancestors(&mut sources, OXLINT_SERVER_ID);
    let (state, _) = command_step(OXLINT_SERVER_ID, "L", &mut sources, state, CommandReply::Inspection(Ok(standalone_dirs(None))));
    let (_, request) = command_step(OXLINT_SERVER_ID, "L", &mut sources, state, CommandReply::Updated(Err("offline".to_string())));
    assert_eq!(finished_error(request), "offline");
}

#[test]
fn inspection_that_is_not_a_list_is_an_error() {
    let mut sources = BTreeMap::new();
    let (state, _) = up_to_ancestors(&mut sources, OXLINT_SERVER_ID);
    let (_, request) = command_step(OXLINT_SERVER_ID, "L", &mut sources, state, CommandReply::Inspection(Ok(object(vec![]))));
    assert_eq!(finished_error(request), "Expected a list of project directories");
}

#[test]
fn probe_uses_the_recorded_source_then_the_settings_then_the_project() {
    let mut sources = BTreeMap::new();
    sources.insert(3, true);
    let (_, request) = probe_start(&sources, 3, "/repo".to_string(), vec![], &plain_settings());
    assert!(matches!(request, ProbeRequest::Finish(Ok(true))));
    let custom = LspSettings {
        binary: Some(CommandSettings {
            path: Some("/x".to_string()),
            arguments: Some(vec![]),
            env: None,
        }),
        initialization_options: None,
        settings: None,
    };
    let (_, request) = probe_start(&sources, 4, "/repo".to_string(), vec![], &custom);
    assert!(matches!(request, ProbeRequest::Finish(Ok(false))));
    let (state, request) = probe_start(&sources, 4, "/repo".to_string(), vars(&[("S", "1")]), &plain_settings());
    assert!(matches!(request, ProbeRequest::FindNode));
    let (state, request) = probe_step(OXLINT_SERVER_ID, state, ProbeReply::NodeBinary(Ok("/node".to_string())));
    match &request {
        ProbeRequest::Inspect(q) => {
            assert_eq!(q.mode, "ancestors");
            assert_eq!(q.env, vars(&[("S", "1")]));
        }
        _ => panic!("expected an inspection"),
    }
    let (state, request) = probe_step(OXLINT_SERVER_ID, state, ProbeReply::Inspection(Ok(vite_plus_dirs())));
    assert!(matches!(state, ProbeState::Done));
    assert!(matches!(request, ProbeRequest::Finish(Ok(true))));
}

#[test]
fn configuration_under_vite_plus_turns_off_nested_configs() {
    let sources = BTreeMap::new();
    let (state, request) = config_start(5, "/repo".to_string(), vec![]);
    assert!(matches!(request, ConfigRequest::FetchSettings));
    let settings = LspSettings {
        binary: None,
        initialization_options: Some(object(vec![("binarySource", text("vite-plus"))])),
        settings: Some(object(vec![("run", text("onType"))])),
    };
    let (state, request) = config_step(OXLINT_SERVER_ID, ConfigKind::Workspace, &sources, state, ConfigReply::Settings(Ok(settings)));
    assert!(matches!(request, ConfigRequest::FindNode));
    let (state, _) = config_step(OXLINT_SERVER_ID, ConfigKind::Workspace, &sources, state, ConfigReply::NodeBinary(Ok("/node".to_string())));
    let (_, request) = config_step(OXLINT_SERVER_ID, ConfigKind::Workspace, &sources, state, ConfigReply::Inspection(Ok(vite_plus_dirs())));
    let config = match request {
        ConfigRequest::Finish(Ok(Some(config))) => config,
        _ => panic!("expected a configuration"),
    };
    assert_eq!(config.get("disableNestedConfig"), Some(&JsonValue::Bool(true)));
    assert_eq!(config.get("run"), Some(&text("onType")));
}

#[test]
fn initialization_options_follow_the_recorded_source() {
    let mut sources = BTreeMap::new();
    sources.insert(5, false);
    let (state, _) = config_start(5, "/repo".to_string(), vec![]);
    let settings = LspSettings {
        binary: None,
        initialization_options: Some(object(vec![("vpPath", text("/vp")), ("other", text("x"))])),
        settings: None,
    };
    let (_, request) = config_step(OXFMT_SERVER_ID, ConfigKind::Initialization, &sources, state, ConfigReply::Settings(Ok(settings)));
    match request {
        ConfigRequest::Finish(Ok(Some(options))) => {
            assert_eq!(options.get("other"), Some(&text("x")));
            assert!(options.get("vpPath").is_none());
            assert!(options.get("settings").is_none());
        }
        _ => panic!("expected options"),
    }
}

#[test]
fn update_installs_only_a_different_version() {
    let (state, request) = update_start();
    assert!(matches!(request, UpdateRequest::SetStatus(InstallStatus::CheckingForUpdate)));
    let (state, request) = update_step(state, UpdateReply::Shown);
    assert!(matches!(request, UpdateRequest::InstalledVersion));
    let (state, request) = update_step(state, UpdateReply::InstalledVersion(Ok(Some("1.0.0".to_string()))));
    assert!(matches!(request, UpdateRequest::LatestVersion));
    let (state, request) = update_step(state, UpdateReply::LatestVersion(Ok("1.1.0".to_string())));
    assert!(matches!(request, UpdateRequest::SetStatus(InstallStatus::Downloading)));
    let (state, request) = update_step(state, UpdateReply::Shown);
    assert!(matches!(&request, UpdateRequest::Install(v) if v == "1.1.0"));
    let (state, request) = update_step(state, UpdateReply::Installed(Ok(())));
    assert!(matches!(request, UpdateRequest::SetStatus(InstallStatus::Cleared)));
    let (state, request) = update_step(state, UpdateReply::Shown);
    assert!(matches!(state, UpdateState::Done));
    assert!(matches!(request, UpdateRequest::Finish(Ok(()))));

    let (state, _) = update_start();
    let (state, _) = update_step(state, UpdateReply::Shown);
    let (state, _) = update_step(state, UpdateReply::InstalledVersion(Ok(Some("2.0.0".to_string()))));
    let (_, request) = update_step(state, UpdateReply::LatestVersion(Ok("2.0.0".to_string())));
    assert!(matches!(request, UpdateRequest::SetStatus(InstallStatus::Cleared)));

    let (state, _) = update_start();
    let (state, _) = update_step(state, UpdateReply::Shown);
    let (state, _) = update_step(state, UpdateReply::InstalledVersion(Ok(None)));
    let (_, request) = update_step(state, UpdateReply::LatestVersion(Ok("2.0.0".to_string())));
    assert!(matches!(request, UpdateRequest::SetStatus(InstallStatus::Downloading)));

    let (state, _) = update_start();
    let (state, _) = update_step(state, UpdateReply::Shown);
    let (_, request) = update_step(state, UpdateReply::InstalledVersion(Err("npm down".to_string())));
    assert!(matches!(&request, UpdateRequest::Finish(Err(e)) if e == "npm down"));
}

#[test]
fn configuration_follows_the_running_command_until_restart() {
    let mut sources = BTreeMap::new();
    let (state, _) = up_to_ancestors(&mut sources, OXLINT_SERVER_ID);
    let (state, _) = command_step(OXLINT_SERVER_ID, "L", &mut sources, state, CommandReply::Inspection(Ok(vite_plus_dirs())));
    let (_, request) = command_step(OXLINT_SERVER_ID, "L", &mut sources, state, CommandReply::Inspection(Ok(object(vec![("path", text("/vp"))]))));
    assert!(matches!(request, CommandRequest::Finish(Ok(_))));
    let (state, request) = probe_start(&sources, 7, "/repo".to_string(), vec![], &plain_settings());
    assert!(matches!(state, ProbeState::Done));
    assert!(matches!(request, ProbeRequest::Finish(Ok(true))));
    let (_, _) = command_start(&mut sources, 7, "/repo".to_string(), vec![]);
    let (_, request) = probe_start(&sources, 7, "/repo".to_string(), vec![], &plain_settings());
    assert!(matches!(request, ProbeRequest::FindNode));
}

#[test]
fn forced_vite_plus_without_directories_finds_no_project() {
    let sources = BTreeMap::new();
    let settings = LspSettings {
        binary: None,
        initialization_options: Some(object(vec![("binarySource", text("vite-plus"))])),
        settings: None,
    };
    let (state, _) = probe_start(&sources, 1, "/r".to_string(), vec![], &settings);
    let (state, _) = probe_step(OXLINT_SERVER_ID, state, ProbeReply::NodeBinary(Ok("/node".to_string())));
    let (_, request) = probe_step(OXLINT_SERVER_ID, state, ProbeReply::Inspection(Ok(JsonValue::Array(vec![]))));
    assert!(matches!(request, ProbeRequest::Finish(Ok(false))));
}
