//! What holds of the library across its functions and across all inputs.

use vstd::prelude::*;
use crate::env::{env_name, merged_vars};
use crate::json::JsonValue;
use crate::lsp::{
    configuration_shape, initialized_as, nested_config_key, opt_shape, own_settings_removed,
    shape_members, JsonShape, LspSettings,
};
use crate::text::eq_ignoring_ascii_case;
use crate::vite_plus::{
    detected, first_declaring, first_text, first_with_manifest, option_member, parsed_as, BinarySource,
    Options,
};
use crate::server::{
    command_transition, probe_began, CommandReply, CommandRequest, CommandState, ProbeRequest,
    ProbeState,
};

verus! {

/// A variable that the later pairs set takes their value, whatever the
/// earlier pairs set: the user's overrides win over the shell.
pub proof fn law_later_pairs_win(first: Seq<(String, String)>, later: Seq<(String, String)>, name: Seq<char>)
    requires
        merged_vars(later).contains_key(name),
    ensures
        merged_vars(first + later).contains_key(name),
        merged_vars(first + later)[name] == merged_vars(later)[name],
    decreases later.len(),
{
    let last = later.last();
    assert((first + later).drop_last() =~= first + later.drop_last());
    assert((first + later).last() == last);
    if env_name(last.0@) != name {
        law_later_pairs_win(first, later.drop_last(), name);
    }
}

/// A variable that the later pairs do not set keeps what the earlier
/// pairs set: the shell's variables stay unless overridden.
pub proof fn law_unset_pairs_keep(first: Seq<(String, String)>, later: Seq<(String, String)>, name: Seq<char>)
    requires
        !merged_vars(later).contains_key(name),
    ensures
        merged_vars(first + later).contains_key(name) == merged_vars(first).contains_key(name),
        merged_vars(first).contains_key(name) ==> merged_vars(first + later)[name] == merged_vars(first)[name],
    decreases later.len(),
{
    if later.len() == 0 {
        assert(first + later =~= first);
    } else {
        assert((first + later).drop_last() =~= first + later.drop_last());
        assert((first + later).last() == later.last());
        law_unset_pairs_keep(first, later.drop_last(), name);
    }
}

/// No spelling of `PATH` but `PATH` itself names a variable of the
/// environment.
pub proof fn law_one_path_spelling(pairs: Seq<(String, String)>, name: Seq<char>)
    requires
        merged_vars(pairs).contains_key(name),
        eq_ignoring_ascii_case(name, "PATH"@),
    ensures
        name == "PATH"@,
    decreases pairs.len(),
{
    if pairs.len() > 0 {
        let k = env_name(pairs.last().0@);
        if k != name {
            law_one_path_spelling(pairs.drop_last(), name);
        } else if !eq_ignoring_ascii_case(pairs.last().0@, "PATH"@) {
            assert(k == pairs.last().0@);
        }
    }
}

/// Under Vite+ the workspace configuration always turns off nested
/// configuration for the tool, whatever the user configured.
pub proof fn law_vite_plus_configuration_disables_nesting(
    init: Option<JsonValue>,
    user: Option<JsonValue>,
    tool: Seq<char>,
)
    ensures
        configuration_shape(init, user, tool, true) matches Some(JsonShape::Members(m)) && m.contains_key(
            nested_config_key(tool),
        ) && m[nested_config_key(tool)] == JsonValue::Bool(true),
{
}

/// Under Vite+ the initialization options always turn off nested
/// configuration for the tool in their `settings`, whatever the user gave.
pub proof fn law_vite_plus_initialization_disables_nesting(
    options: Option<JsonValue>,
    tool: Seq<char>,
    r: Option<JsonValue>,
)
    requires
        initialized_as(options, tool, true, r),
    ensures
        r matches Some(JsonValue::Object(p)) && p@.contains_key("settings"@) && p@["settings"@].object_map().contains_key(
            nested_config_key(tool),
        ) && p@["settings"@].object_map()[nested_config_key(tool)] == JsonValue::Bool(true),
{
}

/// The extension's own settings, `binarySource` and `vpPath`, never reach
/// the server.
pub proof fn law_own_settings_withheld(options: Option<JsonValue>, tool: Seq<char>, vite_plus: bool, r: Option<JsonValue>)
    requires
        initialized_as(options, tool, vite_plus, r),
        r matches Some(JsonValue::Object(_)),
    ensures
        !r->0.object_map().contains_key("binarySource"@),
        !r->0.object_map().contains_key("vpPath"@),
{
    reveal_strlit("settings");
    reveal_strlit("binarySource");
    reveal_strlit("vpPath");
    assert("settings"@.len() != "binarySource"@.len());
    assert("settings"@.len() != "vpPath"@.len());
    let own = own_settings_removed(options);
    assert(!own.contains_key("binarySource"@) && !own.contains_key("vpPath"@));
    if vite_plus {
        let m = r->0.object_map();
        assert(!m.remove("settings"@).contains_key("binarySource"@));
        assert(!m.remove("settings"@).contains_key("vpPath"@));
    } else if !(options matches Some(JsonValue::Object(_))) {
        assert(r == options);
    }
}

/// Without Vite+ the user's initialization options reach the server as
/// they are, where they hold none of the extension's own settings.
pub proof fn law_standalone_options_preserved(options: Option<JsonValue>, tool: Seq<char>, r: Option<JsonValue>)
    requires
        initialized_as(options, tool, false, r),
        !options->0.object_map().contains_key("binarySource"@),
        !options->0.object_map().contains_key("vpPath"@),
    ensures
        opt_shape(r) == opt_shape(options),
{
    if options is Some && options->0 is Object {
        let m = options->0.object_map();
        assert(m.remove("binarySource"@).remove("vpPath"@) =~= m);
    }
}

/// Without Vite+ and without server settings of the user's, the workspace
/// configuration is the `settings` of the initialization options as they
/// are.
pub proof fn law_standalone_configuration_preserved(init: Option<JsonValue>, tool: Seq<char>)
    ensures
        configuration_shape(init, None, tool, false) == match init {
            Some(JsonValue::Object(o)) => if o@.contains_key("settings"@) {
                opt_shape(Some(o@["settings"@]))
            } else {
                None
            },
            _ => None,
        },
{
}

/// The user's server settings, where they are an object, take the place
/// of any other value under the same key in the workspace configuration;
/// only the key that turns off nested configuration stays forced under
/// Vite+.
pub proof fn law_user_settings_win(
    init: Option<JsonValue>,
    user: JsonValue,
    tool: Seq<char>,
    vite_plus: bool,
    key: Seq<char>,
)
    requires
        user is Object,
        user.object_map().contains_key(key),
        !(vite_plus && key == nested_config_key(tool)),
    ensures
        shape_members(configuration_shape(init, Some(user), tool, vite_plus)).contains_key(key),
        shape_members(configuration_shape(init, Some(user), tool, vite_plus))[key] == user.object_map()[key],
{
}

/// With `oxc` as the binary source no Vite+ project is ever detected.
pub proof fn law_oxc_never_detects(dirs: Seq<JsonValue>, vp: Option<Seq<char>>)
    ensures
        detected(dirs, BinarySource::Oxc, vp) is None,
{
}

/// A configured `vpPath` is the one a detected project runs.
pub proof fn law_configured_vp_path_used(dirs: Seq<JsonValue>, source: BinarySource, vp: Seq<char>)
    ensures
        detected(dirs, source, Some(vp)) matches Some((_, p)) ==> p == Some(vp),
{
}

/// The worktree that a launch is for.
pub open spec fn launch_worktree(state: CommandState) -> u64 {
    match state {
        CommandState::AwaitSettings { worktree, .. } => worktree,
        CommandState::AwaitNode { worktree, .. } => worktree,
        CommandState::AwaitAncestors { worktree, .. } => worktree,
        CommandState::AwaitExecutable { worktree, .. } => worktree,
        CommandState::AwaitUpdate { worktree, .. } => worktree,
        CommandState::AwaitInstalledServer { worktree, .. } => worktree,
        CommandState::Done => 0,
    }
}

/// Once a launch has succeeded, the configuration of its worktree follows
/// the running command until the server restarts: asked whether the
/// worktree runs Vite+, the answer is yes exactly when the launch ran
/// `vp`, with nothing asked of the host.
pub proof fn law_configuration_follows_launch(
    package: Seq<char>,
    script: Seq<char>,
    before: Map<u64, bool>,
    after: Map<u64, bool>,
    state: CommandState,
    reply: CommandReply,
    next: CommandState,
    request: CommandRequest,
    root: String,
    shell: Vec<(String, String)>,
    settings: LspSettings,
    probe_next: ProbeState,
    probe_request: ProbeRequest,
)
    requires
        command_transition(package, script, before, after, state, reply, next, request),
        request matches CommandRequest::Finish(Ok(_)),
        probe_began(after, launch_worktree(state), root, shell, settings, probe_next, probe_request),
    ensures
        probe_next is Done,
        probe_request == ProbeRequest::Finish(Ok(state is AwaitExecutable)),
{
}

/// A launch that fails records no binary source, so the next request for
/// the worktree's configuration looks at the project again.
pub proof fn law_failed_launch_records_nothing(
    package: Seq<char>,
    script: Seq<char>,
    before: Map<u64, bool>,
    after: Map<u64, bool>,
    state: CommandState,
    reply: CommandReply,
    next: CommandState,
    request: CommandRequest,
)
    requires
        command_transition(package, script, before, after, state, reply, next, request),
        !(request matches CommandRequest::Finish(Ok(_))),
    ensures
        after == before,
{
}

/// The directory's manifest lists `name`, with a non-empty version, among
/// its dependencies or dev-dependencies.
pub open spec fn lists_package(dir: JsonValue, name: Seq<char>) -> bool {
    ||| dir.at("package"@).at("dependencies"@).at(name).text() matches Some(v) && v.len() > 0
    ||| dir.at("package"@).at("devDependencies"@).at(name).text() matches Some(v) && v.len() > 0
}

/// The directory's manifest lists `vite-plus`.
pub open spec fn lists_vite_plus(dir: JsonValue) -> bool {
    lists_package(dir, "vite-plus"@)
}

/// The first directory from `start` on that gives a string under `key`
/// gives `v`.
pub open spec fn first_string_from(dirs: Seq<JsonValue>, start: int, key: Seq<char>, v: Seq<char>) -> bool {
    exists|j: int|
        start <= j < dirs.len() && #[trigger] dirs[j].at(key).text() == Some(v) && forall|k: int|
            start <= k < j ==> (#[trigger] dirs[k].at(key).text()) is None
}

/// No directory from `start` on gives a string under `key`.
pub open spec fn no_string_from(dirs: Seq<JsonValue>, start: int, key: Seq<char>) -> bool {
    forall|k: int| start <= k < dirs.len() ==> (#[trigger] dirs[k].at(key).text()) is None
}

/// `i` is the directory of the Vite+ project: where Vite+ is forced (by
/// `vite-plus` or a configured `vp` path), the first directory with a
/// manifest object, else the innermost one; otherwise the first directory
/// that lists `vite-plus`.
pub open spec fn project_index(dirs: Seq<JsonValue>, source: BinarySource, vp: Option<Seq<char>>, i: int) -> bool {
    &&& 0 <= i < dirs.len()
    &&& if source == BinarySource::VitePlus || vp is Some {
        ||| (dirs[i].at("package"@) is Object && forall|k: int|
            0 <= k < i ==> !(#[trigger] dirs[k].at("package"@) is Object))
        ||| (i == 0 && forall|k: int| 0 <= k < dirs.len() ==> !(#[trigger] dirs[k].at("package"@) is Object))
    } else {
        &&& lists_vite_plus(dirs[i])
        &&& forall|k: int| 0 <= k < i ==> !lists_vite_plus(#[trigger] dirs[k])
    }
}

proof fn lemma_first_text(dirs: Seq<JsonValue>, start: int, key: Seq<char>)
    requires
        0 <= start,
    ensures
        match first_text(dirs, start, key) {
            Some(v) => first_string_from(dirs, start, key, v),
            None => no_string_from(dirs, start, key),
        },
    decreases dirs.len() - start,
{
    if start < dirs.len() {
        lemma_first_text(dirs, start + 1, key);
        if dirs[start].at(key).text() is Some {
            let v = dirs[start].at(key).text()->0;
            assert(dirs[start].at(key).text() == Some(v));
        } else {
            match first_text(dirs, start + 1, key) {
                Some(v) => {
                    let j = choose|j: int|
                        start + 1 <= j < dirs.len() && #[trigger] dirs[j].at(key).text() == Some(v)
                            && forall|k: int| start + 1 <= k < j ==> (#[trigger] dirs[k].at(key).text()) is None;
                    assert forall|k: int| start <= k < j implies (#[trigger] dirs[k].at(key).text()) is None by {
                        if k > start {
                            assert(start + 1 <= k < j);
                        }
                    }
                },
                None => {},
            }
        }
    }
}

proof fn lemma_first_declaring(dirs: Seq<JsonValue>, start: int, name: Seq<char>)
    requires
        0 <= start,
    ensures
        match first_declaring(dirs, start, name) {
            Some(i) => start <= i < dirs.len() && lists_package(dirs[i], name) && forall|k: int|
                start <= k < i ==> !lists_package(#[trigger] dirs[k], name),
            None => forall|k: int| start <= k < dirs.len() ==> !lists_package(#[trigger] dirs[k], name),
        },
    decreases dirs.len() - start,
{
    if start < dirs.len() {
        lemma_first_declaring(dirs, start + 1, name);
    }
}

proof fn lemma_first_with_manifest(dirs: Seq<JsonValue>, start: int)
    requires
        0 <= start,
    ensures
        match first_with_manifest(dirs, start) {
            Some(i) => start <= i < dirs.len() && dirs[i].at("package"@) is Object && forall|k: int|
                start <= k < i ==> !(#[trigger] dirs[k].at("package"@) is Object),
            None => forall|k: int| start <= k < dirs.len() ==> !(#[trigger] dirs[k].at("package"@) is Object),
        },
    decreases dirs.len() - start,
{
    if start < dirs.len() {
        lemma_first_with_manifest(dirs, start + 1);
    }
}

/// The Vite+ project that detection reports is the project directory's
/// root; its `vp` is the configured one where a `vpPath` is set, and
/// otherwise the first `vp` reported from the project directory upwards,
/// whatever the binary source. With `oxc` nothing is detected, and a
/// project directory with a root is always detected.
pub proof fn law_detected_project(dirs: Seq<JsonValue>, source: BinarySource, vp: Option<Seq<char>>)
    ensures
        source == BinarySource::Oxc ==> detected(dirs, source, vp) is None,
        detected(dirs, source, vp) matches Some((root, v)) ==> exists|i: int|
            #[trigger] project_index(dirs, source, vp, i) && dirs[i].at("root"@).text() == Some(root) && (
            vp is Some ==> v == vp) && (vp is None ==> match v {
                Some(x) => first_string_from(dirs, i, "vp"@, x),
                None => no_string_from(dirs, i, "vp"@),
            }),
        source != BinarySource::Oxc && (exists|i: int|
            #[trigger] project_index(dirs, source, vp, i) && dirs[i].at("root"@).text() is Some)
            ==> detected(dirs, source, vp) is Some,
{
    lemma_first_declaring(dirs, 0, "vite-plus"@);
    lemma_first_with_manifest(dirs, 0);
    if source != BinarySource::Oxc {
        let forced = source == BinarySource::VitePlus || vp is Some;
        let i = if forced {
            match first_with_manifest(dirs, 0) {
                Some(i) => i,
                None => 0,
            }
        } else {
            match first_declaring(dirs, 0, "vite-plus"@) {
                Some(i) => i,
                None => -1,
            }
        };
        reveal_strlit("vite-plus");
        if 0 <= i {
            lemma_first_text(dirs, i, "vp"@);
        }
        if 0 <= i < dirs.len() {
            assert(lists_vite_plus(dirs[i]) == crate::vite_plus::declares(crate::vite_plus::manifest(dirs[i]), "vite-plus"@));
            assert(project_index(dirs, source, vp, i));
        }
        assert forall|j: int| #[trigger] project_index(dirs, source, vp, j) implies j == i by {
            if forced {
                if first_with_manifest(dirs, 0) is None {
                    assert(!(dirs[j].at("package"@) is Object));
                }
            } else {
                assert(forall|k: int| 0 <= k < dirs.len() ==> lists_vite_plus(#[trigger] dirs[k])
                    == crate::vite_plus::declares(crate::vite_plus::manifest(dirs[k]), "vite-plus"@));
                if j < i {
                    assert(!lists_vite_plus(dirs[j]));
                } else if i < j {
                    assert(!lists_vite_plus(dirs[i]));
                }
            }
        }
    }
}

/// When the project directories show a Vite+ project, the launch next
/// inspects the project's `vp`: the configured `vpPath` where one is set,
/// else the first `vp` reported from the project directory upwards, in
/// `executable` mode from the worktree root; only a project without any
/// `vp` falls back to the global `vp`.
pub proof fn law_launch_inspects_project_vp(
    package: Seq<char>,
    script: Seq<char>,
    before: Map<u64, bool>,
    after: Map<u64, bool>,
    worktree: u64,
    root: String,
    env: Vec<(String, String)>,
    options: Options,
    node: String,
    dirs: Vec<JsonValue>,
    next: CommandState,
    request: CommandRequest,
)
    requires
        command_transition(
            package,
            script,
            before,
            after,
            CommandState::AwaitAncestors { worktree, root, env, options, node },
            CommandReply::Inspection(Ok(JsonValue::Array(dirs))),
            next,
            request,
        ),
        request is Inspect,
    ensures
        after == before,
        next matches CommandState::AwaitExecutable { project_root, .. } && exists|i: int|
            #[trigger] project_index(dirs@, options.source, options.vp_path.deep_view(), i)
                && dirs@[i].at("root"@).text() == Some(project_root@),
        request->Inspect_0.node@ == node@,
        request->Inspect_0.path@ == root@,
        request->Inspect_0.env@ == env@,
        options.vp_path matches Some(p) ==> request->Inspect_0.mode@ == "executable"@
            && request->Inspect_0.tool@ == p@,
        options.vp_path is None ==> exists|i: int|
            #[trigger] project_index(dirs@, options.source, None, i) && dirs@[i].at("root"@).text()
                == Some(next->AwaitExecutable_project_root@) && ({
                ||| (request->Inspect_0.mode@ == "executable"@ && first_string_from(
                    dirs@,
                    i,
                    "vp"@,
                    request->Inspect_0.tool@,
                ))
                ||| (request->Inspect_0.mode@ == "global"@ && request->Inspect_0.tool@ == "vp"@
                    && no_string_from(dirs@, i, "vp"@))
            }),
{
    law_detected_project(dirs@, options.source, options.vp_path.deep_view());
}

/// The member `key` of optional settings.
pub open spec fn setting(options: Option<JsonValue>, key: Seq<char>) -> Option<JsonValue> {
    match options {
        Some(v) => v.lookup(key),
        None => None,
    }
}

/// A non-empty `vpPath` string is always kept as the options' `vp` path,
/// whatever the binary source but `oxc`; without a `vpPath` (or with
/// `null`) there is none. A missing or `null` `binarySource` means `auto`.
pub proof fn law_vp_path_kept(options: Option<JsonValue>, r: Result<Options, String>)
    requires
        parsed_as(options, r),
    ensures
        r is Ok && r->Ok_0.source != BinarySource::Oxc ==> r->Ok_0.vp_path.deep_view() == match setting(
            options,
            "vpPath"@,
        ) {
            Some(JsonValue::String(p)) => Some(p@),
            _ => None,
        },
        r is Ok && (setting(options, "binarySource"@) is None || setting(options, "binarySource"@)
            == Some(JsonValue::Null)) ==> r->Ok_0.source == BinarySource::Auto,
        (setting(options, "binarySource"@) is None || setting(options, "binarySource"@) == Some(JsonValue::Null))
            && (setting(options, "vpPath"@) matches Some(JsonValue::String(p)) && p@.len() > 0) ==> r is Ok
            && r->Ok_0.vp_path.deep_view() == Some(setting(options, "vpPath"@)->0->String_0@),
{
    assert(setting(options, "vpPath"@) == option_member(options, "vpPath"@));
    assert(setting(options, "binarySource"@) == option_member(options, "binarySource"@));
}

/// Every member of the user's initialization options other than the
/// extension's own `binarySource` and `vpPath` reaches the server with its
/// value unchanged, with or without Vite+; under Vite+ `settings` is the
/// one member that may change, and within it only the key that turns off
/// nested configuration, every other setting of the user's being kept.
pub proof fn law_user_options_reach_server(
    options: Option<JsonValue>,
    tool: Seq<char>,
    vite_plus: bool,
    r: Option<JsonValue>,
    key: Seq<char>,
)
    requires
        initialized_as(options, tool, vite_plus, r),
        options matches Some(JsonValue::Object(_)),
        key != "binarySource"@,
        key != "vpPath"@,
    ensures
        r matches Some(JsonValue::Object(_)),
        key != "settings"@ || !vite_plus ==> {
            &&& r->0.object_map().contains_key(key) == options->0.object_map().contains_key(key)
            &&& r->0.object_map().contains_key(key) ==> r->0.object_map()[key] == options->0.object_map()[key]
        },
        vite_plus && key != nested_config_key(tool) ==> {
            let given = if options->0.object_map().contains_key("settings"@) {
                options->0.object_map()["settings"@].object_map()
            } else {
                Map::empty()
            };
            let sent = r->0.object_map()["settings"@].object_map();
            &&& sent.contains_key(key) == given.contains_key(key)
            &&& sent.contains_key(key) ==> sent[key] == given[key]
        },
{
    reveal_strlit("settings");
    reveal_strlit("binarySource");
    reveal_strlit("vpPath");
    assert("settings"@.len() != "binarySource"@.len());
    assert("settings"@.len() != "vpPath"@.len());
    let own = own_settings_removed(options);
    assert(own.contains_key(key) == options->0.object_map().contains_key(key));
    if vite_plus && key != "settings"@ {
        let m = r->0.object_map();
        assert(m.remove("settings"@).contains_key(key) == m.contains_key(key));
        assert(own.remove("settings"@).contains_key(key) == own.contains_key(key));
        if m.contains_key(key) {
            assert(m.remove("settings"@)[key] == m[key]);
            assert(own.remove("settings"@)[key] == own[key]);
        }
    }
    if vite_plus {
        assert(own.contains_key("settings"@) == options->0.object_map().contains_key("settings"@));
    }
}

/// Every member of the initialization options' `settings` that the
/// user's server settings do not set stays in the workspace configuration
/// with its own value, with or without Vite+ (but for the key that Vite+
/// forces), when both are objects or the user has no server settings.
pub proof fn law_initial_settings_kept(
    init: Option<JsonValue>,
    user: Option<JsonValue>,
    tool: Seq<char>,
    vite_plus: bool,
    key: Seq<char>,
)
    requires
        init matches Some(JsonValue::Object(_)),
        init->0.object_map().contains_key("settings"@),
        init->0.object_map()["settings"@] is Object,
        init->0.object_map()["settings"@].object_map().contains_key(key),
        user matches Some(u) ==> u is Object && !u.object_map().contains_key(key),
        !(vite_plus && key == nested_config_key(tool)),
    ensures
        configuration_shape(init, user, tool, vite_plus) matches Some(JsonShape::Members(_)),
        shape_members(configuration_shape(init, user, tool, vite_plus)).contains_key(key),
        shape_members(configuration_shape(init, user, tool, vite_plus))[key]
            == init->0.object_map()["settings"@].object_map()[key],
{
}

/// `i` is the first directory whose manifest lists `name`.
pub open spec fn first_listing(dirs: Seq<JsonValue>, name: Seq<char>, i: int) -> bool {
    &&& 0 <= i < dirs.len()
    &&& lists_package(dirs[i], name)
    &&& forall|k: int| 0 <= k < i ==> !lists_package(#[trigger] dirs[k], name)
}

/// The standalone server of a package is the first one reported from the
/// first directory that lists the package upwards; there is none where no
/// directory lists it or none from there on reports one.
pub proof fn law_standalone_server(dirs: Seq<JsonValue>, name: Seq<char>)
    ensures
        match first_declaring(dirs, 0, name) {
            Some(i) => first_text(dirs, i, "standalone"@),
            None => None,
        } matches Some(s) ==> exists|i: int|
            #[trigger] first_listing(dirs, name, i) && first_string_from(dirs, i, "standalone"@, s),
        match first_declaring(dirs, 0, name) {
            Some(i) => first_text(dirs, i, "standalone"@),
            None => None,
        } is None ==> forall|i: int| #[trigger] first_listing(dirs, name, i) ==> no_string_from(dirs, i, "standalone"@),
{
    lemma_first_declaring(dirs, 0, name);
    match first_declaring(dirs, 0, name) {
        Some(i) => {
            lemma_first_text(dirs, i, "standalone"@);
            assert(first_listing(dirs, name, i));
            assert forall|j: int| #[trigger] first_listing(dirs, name, j) implies j == i by {
                if j < i {
                    assert(!lists_package(dirs[j], name));
                } else if i < j {
                    assert(!lists_package(dirs[i], name));
                }
            }
        },
        None => {},
    }
}

/// Where no Vite+ project shows and a directory lists the server's package
/// with a standalone server from there upwards, the launch runs that server
/// with Node.js and `--lsp` and records the worktree as not on Vite+.
pub proof fn law_launch_runs_standalone_server(
    package: Seq<char>,
    script: Seq<char>,
    before: Map<u64, bool>,
    after: Map<u64, bool>,
    worktree: u64,
    root: String,
    env: Vec<(String, String)>,
    options: Options,
    node: String,
    dirs: Vec<JsonValue>,
    next: CommandState,
    request: CommandRequest,
    i: int,
    server: Seq<char>,
)
    requires
        command_transition(
            package,
            script,
            before,
            after,
            CommandState::AwaitAncestors { worktree, root, env, options, node },
            CommandReply::Inspection(Ok(JsonValue::Array(dirs))),
            next,
            request,
        ),
        options.source == BinarySource::Oxc || forall|j: int|
            #[trigger] project_index(dirs@, options.source, options.vp_path.deep_view(), j)
                ==> dirs@[j].at("root"@).text() is None,
        first_listing(dirs@, package, i),
        first_string_from(dirs@, i, "standalone"@, server),
    ensures
        after == before.insert(worktree, false),
        next is Done,
        request matches CommandRequest::Finish(Ok(c)) && c.command@ == node@ && c.args.deep_view() == seq![
            server,
            "--lsp"@,
        ] && c.env@ == env@,
{
    law_detected_project(dirs@, options.source, options.vp_path.deep_view());
    law_standalone_server(dirs@, package);
    lemma_first_declaring(dirs@, 0, package);
    lemma_first_text(dirs@, i, "standalone"@);
    let f = first_declaring(dirs@, 0, package);
    if f is Some {
        let i0 = f->0;
        if i0 < i {
            assert(!lists_package(dirs@[i0], package));
        } else if i < i0 {
            assert(!lists_package(dirs@[i], package));
        }
    }
    let t = first_text(dirs@, i, "standalone"@);
    if t is Some {
        let a = choose|j: int|
            i <= j < dirs@.len() && #[trigger] dirs@[j].at("standalone"@).text() == Some(t->0) && forall|k: int|
                i <= k < j ==> (#[trigger] dirs@[k].at("standalone"@).text()) is None;
        let b = choose|j: int|
            i <= j < dirs@.len() && #[trigger] dirs@[j].at("standalone"@).text() == Some(server) && forall|k: int|
                i <= k < j ==> (#[trigger] dirs@[k].at("standalone"@).text()) is None;
        if a < b {
            assert(dirs@[a].at("standalone"@).text() is None);
        } else if b < a {
            assert(dirs@[b].at("standalone"@).text() is None);
        }
    } else {
        let b = choose|j: int|
            i <= j < dirs@.len() && #[trigger] dirs@[j].at("standalone"@).text() == Some(server) && forall|k: int|
                i <= k < j ==> (#[trigger] dirs@[k].at("standalone"@).text()) is None;
        assert(dirs@[b].at("standalone"@).text() is None);
    }
    assert(detected(dirs@, options.source, options.vp_path.deep_view()) is None);
    assert(first_declaring(dirs@, 0, package) == Some(i));
    assert(first_text(dirs@, i, "standalone"@) == Some(server));
}

} // verus!
