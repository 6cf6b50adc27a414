//! The decisions of launching a language server, as steps that the host
//! side drives: each step takes the answer to the previous request and
//! says what to ask next, or how the launch ends.

use vstd::prelude::*;
use std::collections::BTreeMap;
use crate::env::{names_ascending, vars_map};
use crate::json::JsonValue;
use crate::lsp::{
    configuration_shape, initialization_options, initialized_as, opt_shape, workspace_configuration,
    custom_command, env_overrides, partial_binary_error, server_env, server_vars, Command,
    CommandSettings, LspSettings, OXLINT_SERVER_ID,
};
use crate::text::str_eq;
use crate::vite_plus::{detect_project, detected, first_declaring, first_text, parsed_as, standalone_path, Options};
use vstd::string::StringExecFns;

verus! {

broadcast use vstd::laws_cmp::group_laws_cmp;

/// A copy of an environment table.
pub fn copy_vars(vars: &Vec<(String, String)>) -> (r: Vec<(String, String)>)
    ensures
        r@ == vars@,
{
    let mut r: Vec<(String, String)> = Vec::new();
    let n = vars.len();
    let mut i: usize = 0;
    while i < n
        invariant
            n == vars@.len(),
            i <= n,
            r@ == vars@.take(i as int),
        decreases n - i,
    {
        let name = vars[i].0.clone();
        let value = vars[i].1.clone();
        r.push((name, value));
        assert(r@ =~= vars@.take(i + 1));
        i = i + 1;
    }
    assert(vars@.take(n as int) =~= vars@);
    r
}

/// A run of the inspection script that the host is asked to make.
pub struct InspectRequest {
    pub node: String,
    pub mode: String,
    pub path: String,
    pub tool: String,
    pub env: Vec<(String, String)>,
}

/// What the launch of a server asks of the host next.
pub enum CommandRequest {
    /// The server's settings for the worktree.
    FetchSettings,
    /// The path of the Node.js binary.
    FindNode,
    /// The result of an inspection.
    Inspect(InspectRequest),
    /// Bring the server's npm package up to date.
    UpdateServer,
    /// The path of the server installed by the extension.
    LocateInstalledServer,
    /// The launch is over, with this outcome.
    Finish(Result<Command, String>),
}

/// The host's answer to a request.
pub enum CommandReply {
    Settings(Result<LspSettings, String>),
    NodeBinary(Result<String, String>),
    Inspection(Result<JsonValue, String>),
    Updated(Result<(), String>),
    InstalledServer(Result<String, String>),
}

/// Where the launch of a server stands.
pub enum CommandState {
    AwaitSettings { worktree: u64, root: String, shell: Vec<(String, String)> },
    AwaitNode { worktree: u64, root: String, env: Vec<(String, String)>, options: Options },
    AwaitAncestors {
        worktree: u64,
        root: String,
        env: Vec<(String, String)>,
        options: Options,
        node: String,
    },
    AwaitExecutable { worktree: u64, env: Vec<(String, String)>, node: String, project_root: String },
    AwaitUpdate { worktree: u64, env: Vec<(String, String)>, node: String },
    AwaitInstalledServer { worktree: u64, env: Vec<(String, String)>, node: String },
    Done,
}

/// The reply answers the request that the state waits on.
pub open spec fn answers(state: CommandState, reply: CommandReply) -> bool {
    match state {
        CommandState::AwaitSettings { .. } => reply is Settings,
        CommandState::AwaitNode { .. } => reply is NodeBinary,
        CommandState::AwaitAncestors { .. } => reply is Inspection,
        CommandState::AwaitExecutable { .. } => reply is Inspection,
        CommandState::AwaitUpdate { .. } => reply is Updated,
        CommandState::AwaitInstalledServer { .. } => reply is InstalledServer,
        CommandState::Done => false,
    }
}

/// The environment table holds exactly the variables `vars`, in order.
pub open spec fn env_holds(env: Vec<(String, String)>, vars: Map<Seq<char>, Seq<char>>) -> bool {
    names_ascending(env@) && vars_map(env@) == vars
}

/// The launch is over with the error `e`.
pub open spec fn fails_with(next: CommandState, request: CommandRequest, e: Seq<char>) -> bool {
    &&& next is Done
    &&& request matches CommandRequest::Finish(Err(m)) && m@ == e
}

/// The launch is over with a command that runs `program` with `args` in
/// the environment `env`.
pub open spec fn launches(
    next: CommandState,
    request: CommandRequest,
    program: Seq<char>,
    args: Seq<Seq<char>>,
    env: Seq<(String, String)>,
) -> bool {
    &&& next is Done
    &&& request matches CommandRequest::Finish(Ok(c))
    &&& c.command@ == program
    &&& c.args.deep_view() == args
    &&& c.env@ == env
}

/// The request runs the inspection script in `mode` on `path` for `tool`
/// with Node.js `node` in the environment `env`.
pub open spec fn inspects(
    request: CommandRequest,
    node: Seq<char>,
    mode: Seq<char>,
    path: Seq<char>,
    tool: Seq<char>,
    env: Seq<(String, String)>,
) -> bool {
    &&& request matches CommandRequest::Inspect(q)
    &&& q.node@ == node
    &&& q.mode@ == mode
    &&& q.path@ == path
    &&& q.tool@ == tool
    &&& q.env@ == env
}

/// The command that the binary settings give: `None` where only one of
/// path and arguments is set, `Some(None)` where neither is.
pub open spec fn binary_override(binary: Option<CommandSettings>) -> Option<Option<(String, Vec<String>)>> {
    match binary {
        None => Some(None),
        Some(b) => match (b.path, b.arguments) {
            (Some(p), Some(a)) => Some(Some((p, a))),
            (None, None) => Some(None),
            _ => None,
        },
    }
}

/// The error for a Vite+ project whose `vp` was not found.
pub open spec fn vp_missing_error(root: Seq<char>) -> Seq<char> {
    "Vite+ selected for "@ + root
        + " but vp was not found. Install dependencies (for example, pnpm install), or set initialization_options.vpPath, then restart the language server."@
}

/// The error for an inspection that did not list the project directories.
pub open spec fn not_a_list_error() -> Seq<char> {
    "Expected a list of project directories"@
}

/// The subcommand of `vp` that runs the server named `package`.
pub open spec fn vp_subcommand(package: Seq<char>) -> Seq<char> {
    if package == "oxlint"@ {
        "lint"@
    } else {
        "fmt"@
    }
}

/// How `vp` is to be loaded, from what the executable inspection says.
pub open spec fn vp_loader(executable: JsonValue) -> Seq<char> {
    if executable.at("node"@) == JsonValue::Bool(true) {
        "node"@
    } else {
        "native"@
    }
}

/// One step of the launch: from `state`, on `reply`, with the table of
/// binary sources going from `before` to `after`, to `next` with `request`.
pub open spec fn command_transition(
    package: Seq<char>,
    script: Seq<char>,
    before: Map<u64, bool>,
    after: Map<u64, bool>,
    state: CommandState,
    reply: CommandReply,
    next: CommandState,
    request: CommandRequest,
) -> bool {
    match (state, reply) {
        (
            CommandState::AwaitSettings { worktree, root, shell },
            CommandReply::Settings(outcome),
        ) => match outcome {
            Err(e) => after == before && fails_with(next, request, e@),
            Ok(settings) => {
                let vars = server_vars(shell@ + env_overrides(settings), root@, package);
                match binary_override(settings.binary) {
                    None => after == before && fails_with(next, request, partial_binary_error()),
                    Some(Some((path, args))) => {
                        &&& after == before.insert(worktree, false)
                        &&& next is Done
                        &&& request matches CommandRequest::Finish(Ok(c))
                        &&& c.command == path
                        &&& c.args@ == args@
                        &&& env_holds(c.env, vars)
                    },
                    Some(None) => {
                        let init = settings.initialization_options;
                        &&& after == before
                        &&& {
                            ||| (next matches CommandState::AwaitNode { worktree: w, root: r, env, options }
                                && w == worktree && r == root && env_holds(env, vars)
                                && parsed_as(init, Ok(options)) && request is FindNode)
                            ||| (request matches CommandRequest::Finish(Err(e)) && next is Done
                                && parsed_as(init, Err(e)))
                        }
                    },
                }
            },
        },
        (
            CommandState::AwaitNode { worktree, root, env, options },
            CommandReply::NodeBinary(outcome),
        ) => after == before && match outcome {
            Err(e) => fails_with(next, request, e@),
            Ok(node) => {
                &&& next == (CommandState::AwaitAncestors { worktree, root, env, options, node })
                &&& inspects(request, node@, "ancestors"@, root@, package, env@)
            },
        },
        (
            CommandState::AwaitAncestors { worktree, root, env, options, node },
            CommandReply::Inspection(outcome),
        ) => match outcome {
            Err(e) => after == before && fails_with(next, request, e@),
            Ok(JsonValue::Array(dirs)) => match detected(dirs@, options.source, options.vp_path.deep_view()) {
                Some((project_root, vp)) => {
                    &&& after == before
                    &&& next matches CommandState::AwaitExecutable { worktree: w, env: e, node: n, project_root: p }
                    &&& w == worktree && e == env && n == node && p@ == project_root
                    &&& match vp {
                        Some(path) => inspects(request, node@, "executable"@, root@, path, env@),
                        None => inspects(request, node@, "global"@, root@, "vp"@, env@),
                    }
                },
                None => match first_declaring(dirs@, 0, package) {
                    Some(i) if first_text(dirs@, i, "standalone"@) is Some => {
                        &&& after == before.insert(worktree, false)
                        &&& launches(
                            next,
                            request,
                            node@,
                            seq![first_text(dirs@, i, "standalone"@)->0, "--lsp"@],
                            env@,
                        )
                    },
                    _ => after == before && next == (CommandState::AwaitUpdate { worktree, env, node })
                        && request is UpdateServer,
                },
            },
            Ok(_) => after == before && fails_with(next, request, not_a_list_error()),
        },
        (
            CommandState::AwaitExecutable { worktree, env, node, project_root },
            CommandReply::Inspection(outcome),
        ) => match outcome {
            Err(e) => after == before && fails_with(next, request, e@),
            Ok(executable) => match executable.at("path"@).text() {
                None => after == before && fails_with(next, request, vp_missing_error(project_root@)),
                Some(vp) => {
                    &&& after == before.insert(worktree, true)
                    &&& launches(
                        next,
                        request,
                        node@,
                        seq![
                            "-e"@,
                            script,
                            "--"@,
                            project_root@,
                            vp,
                            vp_loader(executable),
                            vp_subcommand(package),
                        ],
                        env@,
                    )
                },
            },
        },
        (
            CommandState::AwaitUpdate { worktree, env, node },
            CommandReply::Updated(outcome),
        ) => after == before && match outcome {
            Err(e) => fails_with(next, request, e@),
            Ok(_) => next == (CommandState::AwaitInstalledServer { worktree, env, node })
                && request is LocateInstalledServer,
        },
        (
            CommandState::AwaitInstalledServer { worktree, env, node },
            CommandReply::InstalledServer(outcome),
        ) => match outcome {
            Err(e) => after == before && fails_with(next, request, e@),
            Ok(path) => after == before.insert(worktree, false) && launches(
                next,
                request,
                node@,
                seq![path@, "--lsp"@],
                env@,
            ),
        },
        _ => false,
    }
}

/// Starts the launch of a server for the worktree `worktree` with root
/// `root` and shell environment `shell`: the worktree's binary source is
/// forgotten, so that a restart checks settings and installations again,
/// and the settings are asked for.
pub fn command_start(
    sources: &mut BTreeMap<u64, bool>,
    worktree: u64,
    root: String,
    shell: Vec<(String, String)>,
) -> (r: (CommandState, CommandRequest))
    ensures
        final(sources)@ == old(sources)@.remove(worktree),
        r.0 == (CommandState::AwaitSettings { worktree, root, shell }),
        r.1 is FetchSettings,
{
    sources.remove(&worktree);
    (CommandState::AwaitSettings { worktree, root, shell }, CommandRequest::FetchSettings)
}

/// A command that runs `program` with the two arguments `first` and
/// `--lsp`.
fn lsp_command(program: String, first: String, env: Vec<(String, String)>) -> (c: Command)
    ensures
        c.command == program,
        c.args.deep_view() == seq![first@, "--lsp"@],
        c.env == env,
{
    let mut args: Vec<String> = Vec::new();
    args.push(first);
    args.push("--lsp".to_owned());
    assert(args.deep_view() =~= seq![first@, "--lsp"@]);
    Command { command: program, args, env }
}

/// The request that inspects `path` for `tool` in `mode`.
fn inspect_request(node: &String, mode: &str, path: String, tool: String, env: &Vec<(String, String)>) -> (r: CommandRequest)
    ensures
        inspects(r, node@, mode@, path@, tool@, env@),
{
    CommandRequest::Inspect(
        InspectRequest {
            node: node.clone(),
            mode: mode.to_owned(),
            path,
            tool,
            env: copy_vars(env),
        },
    )
}

/// The step on the server's settings.
fn on_settings(
    package: &str,
    launch_script: &str,
    sources: &mut BTreeMap<u64, bool>,
    worktree: u64,
    root: String,
    shell: Vec<(String, String)>,
    outcome: Result<LspSettings, String>,
) -> (r: (CommandState, CommandRequest))
    ensures
        command_transition(
            package@,
            launch_script@,
            old(sources)@,
            final(sources)@,
            CommandState::AwaitSettings { worktree, root, shell },
            CommandReply::Settings(outcome),
            r.0,
            r.1,
        ),
{
    let settings = match outcome {
        Ok(s) => s,
        Err(e) => {
            return (CommandState::Done, CommandRequest::Finish(Err(e)));
        },
    };
    let env = server_env(&settings, shell, root.as_str(), package);
    let env_copy = copy_vars(&env);
    match custom_command(&settings, env_copy) {
        Err(e) => (CommandState::Done, CommandRequest::Finish(Err(e))),
        Ok(Some(command)) => {
            sources.insert(worktree, false);
            (CommandState::Done, CommandRequest::Finish(Ok(command)))
        },
        Ok(None) => match Options::from_initialization(settings.initialization_options.as_ref()) {
            Err(e) => (CommandState::Done, CommandRequest::Finish(Err(e))),
            Ok(options) => (
                CommandState::AwaitNode { worktree, root, env, options },
                CommandRequest::FindNode,
            ),
        },
    }
}

/// The step on the project directories.
fn on_ancestors(
    package: &str,
    launch_script: &str,
    sources: &mut BTreeMap<u64, bool>,
    worktree: u64,
    root: String,
    env: Vec<(String, String)>,
    options: Options,
    node: String,
    outcome: Result<JsonValue, String>,
) -> (r: (CommandState, CommandRequest))
    ensures
        command_transition(
            package@,
            launch_script@,
            old(sources)@,
            final(sources)@,
            CommandState::AwaitAncestors { worktree, root, env, options, node },
            CommandReply::Inspection(outcome),
            r.0,
            r.1,
        ),
{
    let value = match outcome {
        Ok(v) => v,
        Err(e) => {
            return (CommandState::Done, CommandRequest::Finish(Err(e)));
        },
    };
    let dirs = match value {
        JsonValue::Array(dirs) => dirs,
        _ => {
            return (
                CommandState::Done,
                CommandRequest::Finish(Err("Expected a list of project directories".to_owned())),
            );
        },
    };
    match detect_project(dirs.as_slice(), &options) {
        Some(project) => {
            let request = match &project.vp_path {
                Some(path) => inspect_request(&node, "executable", root, path.clone(), &env),
                None => inspect_request(&node, "global", root, "vp".to_owned(), &env),
            };
            (CommandState::AwaitExecutable { worktree, env, node, project_root: project.root }, request)
        },
        None => match standalone_path(dirs.as_slice(), package) {
            Some(path) => {
                let command = lsp_command(node, path.to_owned(), env);
                sources.insert(worktree, false);
                (CommandState::Done, CommandRequest::Finish(Ok(command)))
            },
            None => (CommandState::AwaitUpdate { worktree, env, node }, CommandRequest::UpdateServer),
        },
    }
}

/// The step on the `vp` executable.
fn on_executable(
    package: &str,
    launch_script: &str,
    sources: &mut BTreeMap<u64, bool>,
    worktree: u64,
    env: Vec<(String, String)>,
    node: String,
    project_root: String,
    outcome: Result<JsonValue, String>,
) -> (r: (CommandState, CommandRequest))
    ensures
        command_transition(
            package@,
            launch_script@,
            old(sources)@,
            final(sources)@,
            CommandState::AwaitExecutable { worktree, env, node, project_root },
            CommandReply::Inspection(outcome),
            r.0,
            r.1,
        ),
{
    let executable = match outcome {
        Ok(v) => v,
        Err(e) => {
            return (CommandState::Done, CommandRequest::Finish(Err(e)));
        },
    };
    let vp = match executable.get("path") {
        Some(v) => v.as_str(),
        None => None,
    };
    let vp = match vp {
        Some(p) => p.to_owned(),
        None => {
            let mut message = "Vite+ selected for ".to_owned();
            message.append(project_root.as_str());
            message.append(
                " but vp was not found. Install dependencies (for example, pnpm install), or set initialization_options.vpPath, then restart the language server.",
            );
            return (CommandState::Done, CommandRequest::Finish(Err(message)));
        },
    };
    let runs_on_node = match executable.get("node") {
        Some(v) => v.is_true(),
        None => false,
    };
    let loader = if runs_on_node {
        "node"
    } else {
        "native"
    };
    let subcommand = if str_eq(package, OXLINT_SERVER_ID) {
        "lint"
    } else {
        "fmt"
    };
    let ghost project_root_chars = project_root@;
    let mut args: Vec<String> = Vec::new();
    args.push("-e".to_owned());
    args.push(launch_script.to_owned());
    args.push("--".to_owned());
    args.push(project_root);
    args.push(vp);
    args.push(loader.to_owned());
    args.push(subcommand.to_owned());
    assert(args.deep_view() =~= seq![
        "-e"@,
        launch_script@,
        "--"@,
        project_root_chars,
        executable.at("path"@).text()->0,
        vp_loader(executable),
        vp_subcommand(package@),
    ]);
    sources.insert(worktree, true);
    (CommandState::Done, CommandRequest::Finish(Ok(Command { command: node, args, env })))
}

/// One step of launching the server named `package`, whose Vite+ launcher
/// script is `launch_script`: takes the reply to the last request and
/// gives the next state and request. Each worktree's binary source is
/// recorded in `sources` when the launch succeeds.
pub fn command_step(
    package: &str,
    launch_script: &str,
    sources: &mut BTreeMap<u64, bool>,
    state: CommandState,
    reply: CommandReply,
) -> (r: (CommandState, CommandRequest))
    requires
        answers(state, reply),
    ensures
        command_transition(package@, launch_script@, old(sources)@, final(sources)@, state, reply, r.0, r.1),
{
    match (state, reply) {
        (
            CommandState::AwaitSettings { worktree, root, shell },
            CommandReply::Settings(outcome),
        ) => on_settings(package, launch_script, sources, worktree, root, shell, outcome),
        (
            CommandState::AwaitNode { worktree, root, env, options },
            CommandReply::NodeBinary(outcome),
        ) => match outcome {
            Err(e) => (CommandState::Done, CommandRequest::Finish(Err(e))),
            Ok(node) => {
                let request = inspect_request(&node, "ancestors", root.clone(), package.to_owned(), &env);
                (CommandState::AwaitAncestors { worktree, root, env, options, node }, request)
            },
        },
        (
            CommandState::AwaitAncestors { worktree, root, env, options, node },
            CommandReply::Inspection(outcome),
        ) => on_ancestors(package, launch_script, sources, worktree, root, env, options, node, outcome),
        (
            CommandState::AwaitExecutable { worktree, env, node, project_root },
            CommandReply::Inspection(outcome),
        ) => on_executable(package, launch_script, sources, worktree, env, node, project_root, outcome),
        (CommandState::AwaitUpdate { worktree, env, node }, CommandReply::Updated(outcome)) => match outcome {
            Err(e) => (CommandState::Done, CommandRequest::Finish(Err(e))),
            Ok(_) => (
                CommandState::AwaitInstalledServer { worktree, env, node },
                CommandRequest::LocateInstalledServer,
            ),
        },
        (
            CommandState::AwaitInstalledServer { worktree, env, node },
            CommandReply::InstalledServer(outcome),
        ) => match outcome {
            Err(e) => (CommandState::Done, CommandRequest::Finish(Err(e))),
            Ok(path) => {
                let command = lsp_command(node, path, env);
                sources.insert(worktree, false);
                (CommandState::Done, CommandRequest::Finish(Ok(command)))
            },
        },
        _ => (CommandState::Done, CommandRequest::FindNode),
    }
}

/// What finding out whether a worktree runs Vite+ asks of the host next.
pub enum ProbeRequest {
    /// The path of the Node.js binary.
    FindNode,
    /// The result of an inspection.
    Inspect(InspectRequest),
    /// The answer: whether the server runs from Vite+.
    Finish(Result<bool, String>),
}

/// The host's answer to a probe request.
pub enum ProbeReply {
    NodeBinary(Result<String, String>),
    Inspection(Result<JsonValue, String>),
}

/// Where finding out whether a worktree runs Vite+ stands.
pub enum ProbeState {
    AwaitNode { root: String, shell: Vec<(String, String)>, options: Options },
    AwaitAncestors { options: Options },
    Done,
}

/// The reply answers the request that the probe waits on.
pub open spec fn probe_answers(state: ProbeState, reply: ProbeReply) -> bool {
    match state {
        ProbeState::AwaitNode { .. } => reply is NodeBinary,
        ProbeState::AwaitAncestors { .. } => reply is Inspection,
        ProbeState::Done => false,
    }
}

/// The probe is over with the outcome `outcome`.
pub open spec fn probe_ends(next: ProbeState, request: ProbeRequest, outcome: Result<bool, Seq<char>>) -> bool {
    &&& next is Done
    &&& match outcome {
        Ok(b) => request == ProbeRequest::Finish(Ok(b)),
        Err(e) => request matches ProbeRequest::Finish(Err(m)) && m@ == e,
    }
}

/// The first step of finding out whether the worktree `worktree` runs the
/// server from Vite+: the source the running server was launched from,
/// until the server restarts; no Vite+ under a command of the user's own;
/// otherwise the answer waits on the project directories.
pub open spec fn probe_began(
    sources: Map<u64, bool>,
    worktree: u64,
    root: String,
    shell: Vec<(String, String)>,
    settings: LspSettings,
    next: ProbeState,
    request: ProbeRequest,
) -> bool {
    if sources.contains_key(worktree) {
        probe_ends(next, request, Ok(sources[worktree]))
    } else {
        match binary_override(settings.binary) {
            None => probe_ends(next, request, Err(partial_binary_error())),
            Some(Some(_)) => probe_ends(next, request, Ok(false)),
            Some(None) => {
                ||| (next matches ProbeState::AwaitNode { root: r, shell: sh, options } && r == root && sh
                    == shell && parsed_as(settings.initialization_options, Ok(options))
                    && request is FindNode)
                ||| (request matches ProbeRequest::Finish(Err(e)) && next is Done && parsed_as(
                    settings.initialization_options,
                    Err(e),
                ))
            },
        }
    }
}

/// Starts finding out whether the worktree `worktree`, with root `root`
/// and shell environment `shell`, runs the server from Vite+.
pub fn probe_start(
    sources: &BTreeMap<u64, bool>,
    worktree: u64,
    root: String,
    shell: Vec<(String, String)>,
    settings: &LspSettings,
) -> (r: (ProbeState, ProbeRequest))
    ensures
        probe_began(sources@, worktree, root, shell, *settings, r.0, r.1),
{
    match sources.get(&worktree) {
        Some(source) => {
            return (ProbeState::Done, ProbeRequest::Finish(Ok(*source)));
        },
        None => {},
    }
    match custom_command(settings, Vec::new()) {
        Err(e) => (ProbeState::Done, ProbeRequest::Finish(Err(e))),
        Ok(Some(_)) => (ProbeState::Done, ProbeRequest::Finish(Ok(false))),
        Ok(None) => match Options::from_initialization(settings.initialization_options.as_ref()) {
            Err(e) => (ProbeState::Done, ProbeRequest::Finish(Err(e))),
            Ok(options) => (ProbeState::AwaitNode { root, shell, options }, ProbeRequest::FindNode),
        },
    }
}

/// One step of the probe for the server named `package`, from `state` on
/// `reply` to `next` with `request`.
pub open spec fn probe_transition(
    package: Seq<char>,
    state: ProbeState,
    reply: ProbeReply,
    next: ProbeState,
    request: ProbeRequest,
) -> bool {
    match (state, reply) {
        (ProbeState::AwaitNode { root, shell, options }, ProbeReply::NodeBinary(outcome)) => match outcome {
            Err(e) => probe_ends(next, request, Err(e@)),
            Ok(node) => {
                &&& next == (ProbeState::AwaitAncestors { options })
                &&& request matches ProbeRequest::Inspect(q)
                &&& q.node == node
                &&& q.mode@ == "ancestors"@
                &&& q.path == root
                &&& q.tool@ == package
                &&& q.env == shell
            },
        },
        (ProbeState::AwaitAncestors { options }, ProbeReply::Inspection(outcome)) => match outcome {
            Err(e) => probe_ends(next, request, Err(e@)),
            Ok(JsonValue::Array(dirs)) => probe_ends(
                next,
                request,
                Ok(detected(dirs@, options.source, options.vp_path.deep_view()) is Some),
            ),
            Ok(_) => probe_ends(next, request, Err(not_a_list_error())),
        },
        _ => false,
    }
}

/// One step of finding out whether a worktree runs the server named
/// `package` from Vite+.
pub fn probe_step(package: &str, state: ProbeState, reply: ProbeReply) -> (r: (ProbeState, ProbeRequest))
    requires
        probe_answers(state, reply),
    ensures
        probe_transition(package@, state, reply, r.0, r.1),
{
    match (state, reply) {
        (ProbeState::AwaitNode { root, shell, options }, ProbeReply::NodeBinary(outcome)) => match outcome {
            Err(e) => (ProbeState::Done, ProbeRequest::Finish(Err(e))),
            Ok(node) => (
                ProbeState::AwaitAncestors { options },
                ProbeRequest::Inspect(
                    InspectRequest {
                        node,
                        mode: "ancestors".to_owned(),
                        path: root,
                        tool: package.to_owned(),
                        env: shell,
                    },
                ),
            ),
        },
        (ProbeState::AwaitAncestors { options }, ProbeReply::Inspection(outcome)) => match outcome {
            Err(e) => (ProbeState::Done, ProbeRequest::Finish(Err(e))),
            Ok(JsonValue::Array(dirs)) => {
                let found = detect_project(dirs.as_slice(), &options).is_some();
                (ProbeState::Done, ProbeRequest::Finish(Ok(found)))
            },
            Ok(_) => (
                ProbeState::Done,
                ProbeRequest::Finish(Err("Expected a list of project directories".to_owned())),
            ),
        },
        _ => (ProbeState::Done, ProbeRequest::FindNode),
    }
}

/// Which configuration of the server is asked for.
#[derive(Clone, Copy, Debug, PartialEq, Eq, Structural)]
pub enum ConfigKind {
    /// The initialization options.
    Initialization,
    /// The workspace configuration.
    Workspace,
}

/// What producing a configuration asks of the host next.
pub enum ConfigRequest {
    /// The server's settings for the worktree.
    FetchSettings,
    /// The path of the Node.js binary.
    FindNode,
    /// The result of an inspection.
    Inspect(InspectRequest),
    /// The configuration.
    Finish(Result<Option<JsonValue>, String>),
}

/// The host's answer to a configuration request.
pub enum ConfigReply {
    Settings(Result<LspSettings, String>),
    NodeBinary(Result<String, String>),
    Inspection(Result<JsonValue, String>),
}

/// Where producing a configuration stands.
pub enum ConfigState {
    AwaitSettings { worktree: u64, root: String, shell: Vec<(String, String)> },
    Probing { settings: LspSettings, probe: ProbeState },
    Done,
}

/// The reply answers the request that the state waits on.
pub open spec fn config_answers(state: ConfigState, reply: ConfigReply) -> bool {
    match state {
        ConfigState::AwaitSettings { .. } => reply is Settings,
        ConfigState::Probing { probe, .. } => match reply {
            ConfigReply::NodeBinary(o) => probe_answers(probe, ProbeReply::NodeBinary(o)),
            ConfigReply::Inspection(o) => probe_answers(probe, ProbeReply::Inspection(o)),
            ConfigReply::Settings(_) => false,
        },
        ConfigState::Done => false,
    }
}

/// `r` is the configuration of the kind `kind` that the settings give for
/// `tool`, with or without Vite+.
pub open spec fn configured_as(
    kind: ConfigKind,
    settings: LspSettings,
    tool: Seq<char>,
    vite_plus: bool,
    r: Option<JsonValue>,
) -> bool {
    match kind {
        ConfigKind::Initialization => initialized_as(settings.initialization_options, tool, vite_plus, r),
        ConfigKind::Workspace => opt_shape(r) == configuration_shape(
            settings.initialization_options,
            settings.settings,
            tool,
            vite_plus,
        ),
    }
}

/// What the configuration does with a step of its probe: ends with the
/// probe's error, or with the configuration for the probe's answer, or
/// passes the probe's request on.
pub open spec fn relayed(
    kind: ConfigKind,
    tool: Seq<char>,
    settings: LspSettings,
    probe_next: ProbeState,
    probe_request: ProbeRequest,
    next: ConfigState,
    request: ConfigRequest,
) -> bool {
    match probe_request {
        ProbeRequest::Finish(Err(e)) => next is Done && request == ConfigRequest::Finish(Err(e)),
        ProbeRequest::Finish(Ok(b)) => {
            &&& next is Done
            &&& request matches ConfigRequest::Finish(Ok(c))
            &&& configured_as(kind, settings, tool, b, request->Finish_0->Ok_0)
        },
        ProbeRequest::FindNode => next == (ConfigState::Probing { settings, probe: probe_next })
            && request is FindNode,
        ProbeRequest::Inspect(q) => next == (ConfigState::Probing { settings, probe: probe_next })
            && request == ConfigRequest::Inspect(q),
    }
}

/// One step of producing the configuration of the kind `kind` for the
/// server named `package`.
pub open spec fn config_transition(
    package: Seq<char>,
    kind: ConfigKind,
    sources: Map<u64, bool>,
    state: ConfigState,
    reply: ConfigReply,
    next: ConfigState,
    request: ConfigRequest,
) -> bool {
    match (state, reply) {
        (ConfigState::AwaitSettings { worktree, root, shell }, ConfigReply::Settings(outcome)) => match outcome {
            Err(e) => next is Done && request == ConfigRequest::Finish(Err(e)),
            Ok(settings) => exists|pn: ProbeState, pr: ProbeRequest|
                probe_began(sources, worktree, root, shell, settings, pn, pr) && relayed(
                    kind,
                    package,
                    settings,
                    pn,
                    pr,
                    next,
                    request,
                ),
        },
        (ConfigState::Probing { settings, probe }, ConfigReply::NodeBinary(outcome)) => exists|
            pn: ProbeState,
            pr: ProbeRequest,
        |
            probe_transition(package, probe, ProbeReply::NodeBinary(outcome), pn, pr) && relayed(
                kind,
                package,
                settings,
                pn,
                pr,
                next,
                request,
            ),
        (ConfigState::Probing { settings, probe }, ConfigReply::Inspection(outcome)) => exists|
            pn: ProbeState,
            pr: ProbeRequest,
        |
            probe_transition(package, probe, ProbeReply::Inspection(outcome), pn, pr) && relayed(
                kind,
                package,
                settings,
                pn,
                pr,
                next,
                request,
            ),
        _ => false,
    }
}

/// Starts producing a configuration for the worktree `worktree`, with root
/// `root` and shell environment `shell`: the settings are asked for.
pub fn config_start(worktree: u64, root: String, shell: Vec<(String, String)>) -> (r: (
    ConfigState,
    ConfigRequest,
))
    ensures
        r.0 == (ConfigState::AwaitSettings { worktree, root, shell }),
        r.1 is FetchSettings,
{
    (ConfigState::AwaitSettings { worktree, root, shell }, ConfigRequest::FetchSettings)
}

/// Turns a step of the probe into a step of the configuration.
fn relay(
    package: &str,
    kind: ConfigKind,
    settings: LspSettings,
    probe_next: ProbeState,
    probe_request: ProbeRequest,
) -> (r: (ConfigState, ConfigRequest))
    ensures
        relayed(kind, package@, settings, probe_next, probe_request, r.0, r.1),
{
    match probe_request {
        ProbeRequest::Finish(Err(e)) => (ConfigState::Done, ConfigRequest::Finish(Err(e))),
        ProbeRequest::Finish(Ok(vite_plus)) => {
            let config = match kind {
                ConfigKind::Initialization => initialization_options(
                    settings.initialization_options,
                    package,
                    vite_plus,
                ),
                ConfigKind::Workspace => workspace_configuration(settings, package, vite_plus),
            };
            (ConfigState::Done, ConfigRequest::Finish(Ok(config)))
        },
        ProbeRequest::FindNode => (ConfigState::Probing { settings, probe: probe_next }, ConfigRequest::FindNode),
        ProbeRequest::Inspect(q) => (
            ConfigState::Probing { settings, probe: probe_next },
            ConfigRequest::Inspect(q),
        ),
    }
}

/// One step of producing the configuration of the kind `kind` for the
/// server named `package`: the settings, then whether the worktree runs
/// Vite+, then the configuration.
pub fn config_step(
    package: &str,
    kind: ConfigKind,
    sources: &BTreeMap<u64, bool>,
    state: ConfigState,
    reply: ConfigReply,
) -> (r: (ConfigState, ConfigRequest))
    requires
        config_answers(state, reply),
    ensures
        config_transition(package@, kind, sources@, state, reply, r.0, r.1),
{
    match (state, reply) {
        (ConfigState::AwaitSettings { worktree, root, shell }, ConfigReply::Settings(outcome)) => match outcome {
            Err(e) => (ConfigState::Done, ConfigRequest::Finish(Err(e))),
            Ok(settings) => {
                let (pn, pr) = probe_start(sources, worktree, root, shell, &settings);
                relay(package, kind, settings, pn, pr)
            },
        },
        (ConfigState::Probing { settings, probe }, ConfigReply::NodeBinary(outcome)) => {
            let (pn, pr) = probe_step(package, probe, ProbeReply::NodeBinary(outcome));
            relay(package, kind, settings, pn, pr)
        },
        (ConfigState::Probing { settings, probe }, ConfigReply::Inspection(outcome)) => {
            let (pn, pr) = probe_step(package, probe, ProbeReply::Inspection(outcome));
            relay(package, kind, settings, pn, pr)
        },
        _ => (ConfigState::Done, ConfigRequest::FetchSettings),
    }
}

/// The installation status that the editor shows for a server.
#[derive(Clone, Copy, Debug, PartialEq, Eq, Structural)]
pub enum InstallStatus {
    CheckingForUpdate,
    Downloading,
    Cleared,
}

/// What bringing the server's npm package up to date asks of the host
/// next.
pub enum UpdateRequest {
    /// Show this status; answered by `Shown`.
    SetStatus(InstallStatus),
    /// The installed version of the package, if any.
    InstalledVersion,
    /// The latest published version of the package.
    LatestVersion,
    /// Install this version of the package.
    Install(String),
    /// The update is over, with this outcome.
    Finish(Result<(), String>),
}

/// The host's answer to an update request.
pub enum UpdateReply {
    Shown,
    InstalledVersion(Result<Option<String>, String>),
    LatestVersion(Result<String, String>),
    Installed(Result<(), String>),
}

/// Where bringing the package up to date stands.
pub enum UpdateState {
    AwaitCheckingShown,
    AwaitInstalledVersion,
    AwaitLatestVersion { installed: Option<String> },
    AwaitDownloadingShown { latest: String },
    AwaitInstall,
    AwaitClearedShown,
    Done,
}

/// The reply answers the request that the state waits on.
pub open spec fn update_answers(state: UpdateState, reply: UpdateReply) -> bool {
    match state {
        UpdateState::AwaitCheckingShown => reply is Shown,
        UpdateState::AwaitInstalledVersion => reply is InstalledVersion,
        UpdateState::AwaitLatestVersion { .. } => reply is LatestVersion,
        UpdateState::AwaitDownloadingShown { .. } => reply is Shown,
        UpdateState::AwaitInstall => reply is Installed,
        UpdateState::AwaitClearedShown => reply is Shown,
        UpdateState::Done => false,
    }
}

/// The update is over with the error `e`.
pub open spec fn update_fails(next: UpdateState, request: UpdateRequest, e: String) -> bool {
    next is Done && request == UpdateRequest::Finish(Err(e))
}

/// One step of bringing the package up to date: show that updates are
/// being checked, read the installed and the latest version, and where
/// they differ show the download and install the latest; then clear the
/// status. An error ends the update where it occurs.
pub open spec fn update_transition(
    state: UpdateState,
    reply: UpdateReply,
    next: UpdateState,
    request: UpdateRequest,
) -> bool {
    match (state, reply) {
        (UpdateState::AwaitCheckingShown, UpdateReply::Shown) => next == UpdateState::AwaitInstalledVersion
            && request == UpdateRequest::InstalledVersion,
        (UpdateState::AwaitInstalledVersion, UpdateReply::InstalledVersion(outcome)) => match outcome {
            Err(e) => update_fails(next, request, e),
            Ok(installed) => next == (UpdateState::AwaitLatestVersion { installed })
                && request == UpdateRequest::LatestVersion,
        },
        (UpdateState::AwaitLatestVersion { installed }, UpdateReply::LatestVersion(outcome)) => match outcome {
            Err(e) => update_fails(next, request, e),
            Ok(latest) => if installed.deep_view() == Some(latest@) {
                next == UpdateState::AwaitClearedShown && request == UpdateRequest::SetStatus(
                    InstallStatus::Cleared,
                )
            } else {
                next == (UpdateState::AwaitDownloadingShown { latest }) && request
                    == UpdateRequest::SetStatus(InstallStatus::Downloading)
            },
        },
        (UpdateState::AwaitDownloadingShown { latest }, UpdateReply::Shown) => next == UpdateState::AwaitInstall
            && request == UpdateRequest::Install(latest),
        (UpdateState::AwaitInstall, UpdateReply::Installed(outcome)) => match outcome {
            Err(e) => update_fails(next, request, e),
            Ok(_) => next == UpdateState::AwaitClearedShown && request == UpdateRequest::SetStatus(
                InstallStatus::Cleared,
            ),
        },
        (UpdateState::AwaitClearedShown, UpdateReply::Shown) => next is Done && request
            == UpdateRequest::Finish(Ok(())),
        _ => false,
    }
}

/// Starts bringing the server's npm package up to date: the editor is
/// told that updates are being checked.
pub fn update_start() -> (r: (UpdateState, UpdateRequest))
    ensures
        r.0 == UpdateState::AwaitCheckingShown,
        r.1 == UpdateRequest::SetStatus(InstallStatus::CheckingForUpdate),
{
    (UpdateState::AwaitCheckingShown, UpdateRequest::SetStatus(InstallStatus::CheckingForUpdate))
}

/// One step of bringing the server's npm package up to date.
pub fn update_step(state: UpdateState, reply: UpdateReply) -> (r: (UpdateState, UpdateRequest))
    requires
        update_answers(state, reply),
    ensures
        update_transition(state, reply, r.0, r.1),
{
    match (state, reply) {
        (UpdateState::AwaitCheckingShown, UpdateReply::Shown) => (
            UpdateState::AwaitInstalledVersion,
            UpdateRequest::InstalledVersion,
        ),
        (UpdateState::AwaitInstalledVersion, UpdateReply::InstalledVersion(outcome)) => match outcome {
            Err(e) => (UpdateState::Done, UpdateRequest::Finish(Err(e))),
            Ok(installed) => (UpdateState::AwaitLatestVersion { installed }, UpdateRequest::LatestVersion),
        },
        (UpdateState::AwaitLatestVersion { installed }, UpdateReply::LatestVersion(outcome)) => match outcome {
            Err(e) => (UpdateState::Done, UpdateRequest::Finish(Err(e))),
            Ok(latest) => {
                let current = match &installed {
                    Some(v) => *v == latest,
                    None => false,
                };
                if current {
                    (UpdateState::AwaitClearedShown, UpdateRequest::SetStatus(InstallStatus::Cleared))
                } else {
                    (
                        UpdateState::AwaitDownloadingShown { latest },
                        UpdateRequest::SetStatus(InstallStatus::Downloading),
                    )
                }
            },
        },
        (UpdateState::AwaitDownloadingShown { latest }, UpdateReply::Shown) => (
            UpdateState::AwaitInstall,
            UpdateRequest::Install(latest),
        ),
        (UpdateState::AwaitInstall, UpdateReply::Installed(outcome)) => match outcome {
            Err(e) => (UpdateState::Done, UpdateRequest::Finish(Err(e))),
            Ok(_) => (UpdateState::AwaitClearedShown, UpdateRequest::SetStatus(InstallStatus::Cleared)),
        },
        (UpdateState::AwaitClearedShown, UpdateReply::Shown) => (UpdateState::Done, UpdateRequest::Finish(Ok(()))),
        _ => (UpdateState::Done, UpdateRequest::LatestVersion),
    }
}

} // verus!
