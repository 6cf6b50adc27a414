//! The language-server settings of the oxlint and oxfmt extensions: the
//! user's command override, the server's environment, and the options and
//! configuration handed to the server.

use vstd::prelude::*;
use crate::json::{JsonObject, JsonValue};
use crate::env::{is_absolute_path, merge_vars, merged_vars, names_ascending, path_is_absolute, set_var, var_value, vars_map};
use crate::text::str_eq;
use vstd::string::StringExecFns;
use std::collections::BTreeMap;

verus! {

/// The name of the oxlint language server.
pub const OXLINT_SERVER_ID: &'static str = "oxlint";

/// The name of the oxfmt language server.
pub const OXFMT_SERVER_ID: &'static str = "oxfmt";

/// A language server that the extension provides, and which source of
/// binary it launched last for each worktree: `true` for Vite+.
pub trait ZedLspSupport {
    /// The npm package, and language server, name.
    fn package_name(&self) -> &'static str;

    /// For each worktree, whether the server last launched from Vite+.
    fn sources(&self) -> &BTreeMap<u64, bool>;

    /// The same table, to change.
    fn sources_mut(&mut self) -> &mut BTreeMap<u64, bool>;
}

/// The user's settings for a language server binary.
#[derive(Debug)]
pub struct CommandSettings {
    pub path: Option<String>,
    pub arguments: Option<Vec<String>>,
    pub env: Option<Vec<(String, String)>>,
}

/// The user's settings for a language server.
#[derive(Debug)]
pub struct LspSettings {
    pub binary: Option<CommandSettings>,
    pub initialization_options: Option<JsonValue>,
    pub settings: Option<JsonValue>,
}

/// A command that starts a language server.
#[derive(Debug)]
pub struct Command {
    pub command: String,
    pub args: Vec<String>,
    pub env: Vec<(String, String)>,
}

/// The error for a binary setting that gives only one of path and arguments.
pub open spec fn partial_binary_error() -> Seq<char> {
    "When supplying binary.arguments, binary.path must be supplied (or vice-versa)."@
}

/// The user's own command for the server, where the settings give one:
/// path and arguments together, with the environment `env`. An error where
/// only one of the two is given.
pub fn custom_command(settings: &LspSettings, env: Vec<(String, String)>) -> (r: Result<
    Option<Command>,
    String,
>)
    ensures
        match settings.binary {
            None => r == Ok::<Option<Command>, String>(None),
            Some(b) => match (b.path, b.arguments) {
                (Some(path), Some(args)) => r matches Ok(Some(c)) && c.command == path && c.args@
                    == args@ && c.env == env,
                (None, None) => r == Ok::<Option<Command>, String>(None),
                _ => r matches Err(e) && e@ == partial_binary_error(),
            },
        },
{
    let binary = match &settings.binary {
        Some(b) => b,
        None => {
            return Ok(None);
        },
    };
    match (&binary.path, &binary.arguments) {
        (Some(path), Some(args)) => {
            let args_copy = args.clone();
            assert(args_copy@ =~= args@);
            Ok(Some(Command { command: path.clone(), args: args_copy, env }))
        },
        (None, None) => Ok(None),
        _ => Err(
            "When supplying binary.arguments, binary.path must be supplied (or vice-versa).".to_owned(),
        ),
    }
}

/// The configuration key that turns off nested configuration files for
/// `tool`.
pub open spec fn nested_config_key(tool: Seq<char>) -> Seq<char> {
    if tool == "oxlint"@ {
        "disableNestedConfig"@
    } else {
        "fmt.disableNestedConfig"@
    }
}

/// The members of the server settings `entry` with nested configuration
/// turned off for `tool`; a settings value that is no object counts as
/// empty.
pub open spec fn nested_config_off(entry: Option<JsonValue>, tool: Seq<char>) -> Map<Seq<char>, JsonValue> {
    let members = match entry {
        Some(v) => v.object_map(),
        None => Map::empty(),
    };
    members.insert(nested_config_key(tool), JsonValue::Bool(true))
}

/// Turns off nested configuration files for `tool` in the server settings,
/// making them an object where they are not one.
pub fn force_nested_config(settings: &mut JsonValue, tool: &str)
    ensures
        *final(settings) matches JsonValue::Object(o) && o@ == nested_config_off(Some(*old(settings)), tool@),
{
    let mut current = JsonValue::Null;
    std::mem::swap(&mut current, settings);
    let mut members = match current {
        JsonValue::Object(o) => o,
        _ => JsonObject::new(),
    };
    let key = if str_eq(tool, OXLINT_SERVER_ID) {
        "disableNestedConfig"
    } else {
        "fmt.disableNestedConfig"
    };
    members.insert(key.to_owned(), JsonValue::Bool(true));
    *settings = JsonValue::Object(members);
}

/// The members of the initialization options with the extension's own
/// settings, `binarySource` and `vpPath`, taken out; empty where the
/// options are no object.
pub open spec fn own_settings_removed(options: Option<JsonValue>) -> Map<Seq<char>, JsonValue> {
    match options {
        Some(JsonValue::Object(o)) => o@.remove("binarySource"@).remove("vpPath"@),
        _ => Map::empty(),
    }
}

/// The value under `key` in a map, where it holds one.
pub open spec fn entry(m: Map<Seq<char>, JsonValue>, key: Seq<char>) -> Option<JsonValue> {
    if m.contains_key(key) {
        Some(m[key])
    } else {
        None
    }
}

/// `r` is an object of initialization options for Vite+: the user's
/// members without the extension's own settings, and `settings` that turn
/// off nested configuration for `tool`.
pub open spec fn vite_plus_options(r: Option<JsonValue>, options: Option<JsonValue>, tool: Seq<char>) -> bool {
    &&& r matches Some(JsonValue::Object(p))
    &&& r->0.object_map().contains_key("settings"@)
    &&& r->0.object_map().remove("settings"@) == own_settings_removed(options).remove("settings"@)
    &&& r->0.object_map()["settings"@] is Object
    &&& r->0.object_map()["settings"@].object_map() == nested_config_off(
        entry(own_settings_removed(options), "settings"@),
        tool,
    )
}

/// `r` is the initialization options for the server: the user's
/// options, without the extension's own settings; under Vite+ an object
/// whose `settings` turn off nested configuration for `tool`.
pub open spec fn initialized_as(
    options: Option<JsonValue>,
    tool: Seq<char>,
    vite_plus: bool,
    r: Option<JsonValue>,
) -> bool {
    if vite_plus {
        vite_plus_options(r, options, tool)
    } else {
        match options {
            Some(JsonValue::Object(_)) => r matches Some(JsonValue::Object(p)) && p@ == own_settings_removed(
                options,
            ),
            _ => r == options,
        }
    }
}

/// The initialization options for the server: the user's, without the
/// extension's own settings; under Vite+ an object whose `settings` turn
/// off nested configuration for `tool`.
pub fn initialization_options(options: Option<JsonValue>, tool: &str, vite_plus: bool) -> (r: Option<
    JsonValue,
>)
    ensures
        initialized_as(options, tool@, vite_plus, r),
{
    let stripped = match options {
        Some(JsonValue::Object(o)) => {
            let mut o = o;
            o.remove("binarySource");
            o.remove("vpPath");
            Some(JsonValue::Object(o))
        },
        other => other,
    };
    if !vite_plus {
        return stripped;
    }
    let mut members = match stripped {
        Some(JsonValue::Object(o)) => o,
        _ => JsonObject::new(),
    };
    let mut settings = match members.remove("settings") {
        Some(v) => v,
        None => JsonValue::Object(JsonObject::new()),
    };
    force_nested_config(&mut settings, tool);
    members.insert("settings".to_owned(), settings);
    assert(members@.remove("settings"@) =~= own_settings_removed(options).remove("settings"@));
    Some(JsonValue::Object(members))
}

/// A JSON value seen one level deep: an object as the map of its members,
/// any other value as itself.
pub enum JsonShape {
    Members(Map<Seq<char>, JsonValue>),
    Other(JsonValue),
}

/// The shape of a value.
pub open spec fn shape(v: JsonValue) -> JsonShape {
    match v {
        JsonValue::Object(o) => JsonShape::Members(o@),
        _ => JsonShape::Other(v),
    }
}

/// The shape of an optional value.
pub open spec fn opt_shape(v: Option<JsonValue>) -> Option<JsonShape> {
    match v {
        Some(x) => Some(shape(x)),
        None => None,
    }
}

/// The members that a shape holds; none for a value that is no object.
pub open spec fn shape_members(s: Option<JsonShape>) -> Map<Seq<char>, JsonValue> {
    match s {
        Some(JsonShape::Members(m)) => m,
        _ => Map::empty(),
    }
}

/// The workspace configuration for the server: the `settings` member of
/// the initialization options, then the user's server settings merged over
/// it member by member where both are objects (else the user's settings in
/// its place); under Vite+ with nested configuration turned off for `tool`,
/// both in the `settings` taken from the initialization options and at the
/// end.
pub open spec fn configuration_shape(
    init: Option<JsonValue>,
    user: Option<JsonValue>,
    tool: Seq<char>,
    vite_plus: bool,
) -> Option<JsonShape> {
    let from_init = match init {
        Some(JsonValue::Object(o)) => entry(o@, "settings"@),
        _ => None,
    };
    let base = if vite_plus {
        Some(JsonShape::Members(nested_config_off(from_init, tool)))
    } else {
        opt_shape(from_init)
    };
    let merged = match user {
        None => base,
        Some(u) => {
            let target = match base {
                Some(t) => t,
                None => JsonShape::Members(Map::empty()),
            };
            match (target, shape(u)) {
                (JsonShape::Members(t), JsonShape::Members(m)) => Some(
                    JsonShape::Members(t.union_prefer_right(m)),
                ),
                _ => Some(shape(u)),
            }
        },
    };
    if vite_plus {
        Some(
            JsonShape::Members(
                shape_members(merged).insert(nested_config_key(tool), JsonValue::Bool(true)),
            ),
        )
    } else {
        merged
    }
}

/// The workspace configuration for the server, from its settings.
pub fn workspace_configuration(settings: LspSettings, tool: &str, vite_plus: bool) -> (r: Option<
    JsonValue,
>)
    ensures
        opt_shape(r) == configuration_shape(
            settings.initialization_options,
            settings.settings,
            tool@,
            vite_plus,
        ),
{
    let ghost init = settings.initialization_options;
    let LspSettings { binary: _, initialization_options: init_options, settings: user } = settings;
    let options = initialization_options(init_options, tool, vite_plus);
    let mut config = match options {
        Some(JsonValue::Object(o)) => {
            let mut o = o;
            o.remove("settings")
        },
        _ => None,
    };
    proof {
        reveal_strlit("settings");
        reveal_strlit("binarySource");
        reveal_strlit("vpPath");
        let from_init = match init {
            Some(JsonValue::Object(o)) => entry(o@, "settings"@),
            _ => None,
        };
        assert("settings"@.len() != "binarySource"@.len());
        assert("settings"@.len() != "vpPath"@.len());
        assert(entry(own_settings_removed(init), "settings"@) == from_init);
        if vite_plus {
            assert(opt_shape(config) == Some(JsonShape::Members(nested_config_off(from_init, tool@))));
        } else {
            assert(opt_shape(config) == opt_shape(from_init));
        }
    }
    match user {
        Some(u) => {
            let target = match config {
                Some(t) => t,
                None => JsonValue::Object(JsonObject::new()),
            };
            let merged = match (target, u) {
                (JsonValue::Object(t), JsonValue::Object(m)) => {
                    let mut t = t;
                    t.extend(m);
                    JsonValue::Object(t)
                },
                (_, u) => u,
            };
            config = Some(merged);
        },
        None => {},
    }
    if vite_plus {
        let mut c = match config {
            Some(c) => c,
            None => JsonValue::Object(JsonObject::new()),
        };
        force_nested_config(&mut c, tool);
        config = Some(c);
    }
    config
}

/// The environment overrides that the binary settings give, in order.
pub open spec fn env_overrides(settings: LspSettings) -> Seq<(String, String)> {
    match settings.binary {
        Some(b) => match b.env {
            Some(e) => e@,
            None => Seq::empty(),
        },
        None => Seq::empty(),
    }
}

/// The variable through which oxlint finds its type-aware linter.
pub open spec fn tsgolint_var() -> Seq<char> {
    "OXLINT_TSGOLINT_PATH"@
}

/// The server's environment: the shell's variables, then the user's
/// overrides over them, any spelling of `PATH` taken as `PATH`; for oxlint,
/// a relative type-aware linter path is taken from the worktree root.
pub open spec fn server_vars(
    pairs: Seq<(String, String)>,
    root: Seq<char>,
    tool: Seq<char>,
) -> Map<Seq<char>, Seq<char>> {
    let m = merged_vars(pairs);
    if tool == "oxlint"@ && m.contains_key(tsgolint_var()) && !is_absolute_path(m[tsgolint_var()]) {
        m.insert(tsgolint_var(), root + "/"@ + m[tsgolint_var()])
    } else {
        m
    }
}

/// The environment that the server runs with, its names in ascending
/// order.
pub fn server_env(settings: &LspSettings, shell: Vec<(String, String)>, root: &str, tool: &str) -> (r: Vec<
    (String, String),
>)
    ensures
        names_ascending(r@),
        vars_map(r@) == server_vars(shell@ + env_overrides(*settings), root@, tool@),
{
    let ghost all = shell@ + env_overrides(*settings);
    let mut pairs = shell;
    match &settings.binary {
        Some(b) => match &b.env {
            Some(overrides) => {
                let n = overrides.len();
                let ghost start = pairs@;
                let mut i: usize = 0;
                while i < n
                    invariant
                        n == overrides@.len(),
                        i <= n,
                        pairs@ == start + overrides@.take(i as int),
                    decreases n - i,
                {
                    let name = overrides[i].0.clone();
                    let value = overrides[i].1.clone();
                    pairs.push((name, value));
                    assert(overrides@.take(i + 1) =~= overrides@.take(i as int).push(overrides@[i as int]));
                    i = i + 1;
                }
                assert(overrides@.take(n as int) =~= overrides@);
            },
            None => {},
        },
        None => {},
    }
    assert(pairs@ =~= all);
    let mut env = merge_vars(&pairs);
    if str_eq(tool, OXLINT_SERVER_ID) {
        let resolved = match var_value(&env, "OXLINT_TSGOLINT_PATH") {
            Some(path) => {
                if path_is_absolute(path.as_str()) {
                    None
                } else {
                    let mut joined = root.to_owned();
                    joined.append("/");
                    joined.append(path.as_str());
                    Some(joined)
                }
            },
            None => None,
        };
        match resolved {
            Some(p) => set_var(&mut env, "OXLINT_TSGOLINT_PATH".to_owned(), p),
            None => {},
        }
    }
    env
}

} // verus!
