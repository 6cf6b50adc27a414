//! Choosing between the Vite+ toolchain and the standalone oxc servers, from
//! the user's options and the project directories that the inspection
//! script reports.

use vstd::prelude::*;
use crate::json::JsonValue;
use crate::text::{opt_chars, str_eq};
use vstd::string::StringExecFns;

verus! {

/// Where the language server binary comes from.
#[derive(Clone, Copy, Debug, PartialEq, Eq, Structural)]
pub enum BinarySource {
    Auto,
    VitePlus,
    Oxc,
}

impl Default for BinarySource {
    fn default() -> (r: BinarySource)
        ensures
            r == BinarySource::Auto,
    {
        BinarySource::Auto
    }
}

/// The user's choice of binary, from the initialization options.
#[derive(Debug, PartialEq, Eq)]
pub struct Options {
    pub source: BinarySource,
    pub vp_path: Option<String>,
}

impl Default for Options {
    fn default() -> (r: Options)
        ensures
            r.source == BinarySource::Auto,
            r.vp_path is None,
    {
        Options { source: BinarySource::Auto, vp_path: None }
    }
}

/// A Vite+ project: its root directory and, where known, the `vp`
/// executable to run.
#[derive(Debug, PartialEq, Eq)]
pub struct Project {
    pub root: String,
    pub vp_path: Option<String>,
}

/// The error for a `binarySource` that is not one of the three names.
pub open spec fn binary_source_error() -> Seq<char> {
    "binarySource must be auto, vite-plus, or oxc."@
}

/// The error for a `vpPath` that is not a non-empty string.
pub open spec fn vp_path_error() -> Seq<char> {
    "vpPath must be a non-empty executable path."@
}

/// The member `key` of the options, where there are options.
pub open spec fn option_member(options: Option<JsonValue>, key: Seq<char>) -> Option<JsonValue> {
    match options {
        Some(v) => v.lookup(key),
        None => None,
    }
}

/// The binary source that a `binarySource` setting names; `None` where it
/// names none. A missing or `null` setting means `auto`.
pub open spec fn parse_binary_source(setting: Option<JsonValue>) -> Option<BinarySource> {
    match setting {
        None => Some(BinarySource::Auto),
        Some(JsonValue::Null) => Some(BinarySource::Auto),
        Some(JsonValue::String(s)) => if s@ == "auto"@ {
            Some(BinarySource::Auto)
        } else if s@ == "vite-plus"@ {
            Some(BinarySource::VitePlus)
        } else if s@ == "oxc"@ {
            Some(BinarySource::Oxc)
        } else {
            None
        },
        _ => None,
    }
}

/// The `vp` path that a `vpPath` setting gives: `Some(None)` for none,
/// `Some(Some(path))` for a path, `None` where the setting is invalid.
pub open spec fn parse_vp_path(setting: Option<JsonValue>) -> Option<Option<Seq<char>>> {
    match setting {
        None => Some(None),
        Some(JsonValue::Null) => Some(None),
        Some(JsonValue::String(s)) => if s@.len() > 0 {
            Some(Some(s@))
        } else {
            None
        },
        _ => None,
    }
}

/// `r` is what reading the initialization options `options` gives: the
/// binary source and `vp` path they name, or the error for the first
/// setting that is invalid. With `oxc`, `vpPath` is not read.
pub open spec fn parsed_as(options: Option<JsonValue>, r: Result<Options, String>) -> bool {
    let source = parse_binary_source(option_member(options, "binarySource"@));
    let vp = parse_vp_path(option_member(options, "vpPath"@));
    match source {
        None => r matches Err(e) && e@ == binary_source_error(),
        Some(BinarySource::Oxc) => r matches Ok(o) && o.source == BinarySource::Oxc && o.vp_path is None,
        Some(s) => match vp {
            None => r matches Err(e) && e@ == vp_path_error(),
            Some(p) => r matches Ok(o) && o.source == s && o.vp_path.deep_view() == p,
        },
    }
}

impl Options {
    /// Reads `binarySource` and `vpPath` from the initialization options.
    pub fn from_initialization(options: Option<&JsonValue>) -> (r: Result<Options, String>)
        ensures
            parsed_as(
                match options {
                    Some(v) => Some(*v),
                    None => None,
                },
                r,
            ),
    {
        let source_setting = match options {
            Some(v) => v.get("binarySource"),
            None => None,
        };
        let source = match source_setting {
            None => BinarySource::Auto,
            Some(JsonValue::Null) => BinarySource::Auto,
            Some(JsonValue::String(value)) => {
                if str_eq(value.as_str(), "auto") {
                    BinarySource::Auto
                } else if str_eq(value.as_str(), "vite-plus") {
                    BinarySource::VitePlus
                } else if str_eq(value.as_str(), "oxc") {
                    BinarySource::Oxc
                } else {
                    return Err("binarySource must be auto, vite-plus, or oxc.".to_owned());
                }
            },
            _ => {
                return Err("binarySource must be auto, vite-plus, or oxc.".to_owned());
            },
        };
        if source == BinarySource::Oxc {
            return Ok(Options { source, vp_path: None });
        }
        let path_setting = match options {
            Some(v) => v.get("vpPath"),
            None => None,
        };
        let vp_path = match path_setting {
            None => None,
            Some(JsonValue::Null) => None,
            Some(JsonValue::String(value)) => {
                if value.as_str().is_empty() {
                    return Err("vpPath must be a non-empty executable path.".to_owned());
                }
                Some(value.clone())
            },
            _ => {
                return Err("vpPath must be a non-empty executable path.".to_owned());
            },
        };
        Ok(Options { source, vp_path })
    }

    /// Reads `binarySource` and `vpPath` from the settings; the same reading
    /// as `from_initialization`.
    pub fn from_settings(options: Option<&JsonValue>) -> (r: Result<Options, String>)
        ensures
            parsed_as(
                match options {
                    Some(v) => Some(*v),
                    None => None,
                },
                r,
            ),
    {
        Options::from_initialization(options)
    }
}

/// A package manifest lists `name`, with a non-empty version, among its
/// dependencies or its dev-dependencies.
pub open spec fn declares(package: JsonValue, name: Seq<char>) -> bool {
    ||| package.at("dependencies"@).at(name).text() matches Some(v) && v.len() > 0
    ||| package.at("devDependencies"@).at(name).text() matches Some(v) && v.len() > 0
}

/// The manifest of a project directory.
pub open spec fn manifest(dir: JsonValue) -> JsonValue {
    dir.at("package"@)
}

/// The first directory at or after `start` whose manifest declares `name`.
pub open spec fn first_declaring(dirs: Seq<JsonValue>, start: int, name: Seq<char>) -> Option<int>
    decreases dirs.len() - start,
{
    if start < 0 || start >= dirs.len() {
        None
    } else if declares(manifest(dirs[start]), name) {
        Some(start)
    } else {
        first_declaring(dirs, start + 1, name)
    }
}

/// The first directory at or after `start` that has a manifest object.
pub open spec fn first_with_manifest(dirs: Seq<JsonValue>, start: int) -> Option<int>
    decreases dirs.len() - start,
{
    if start < 0 || start >= dirs.len() {
        None
    } else if manifest(dirs[start]) is Object {
        Some(start)
    } else {
        first_with_manifest(dirs, start + 1)
    }
}

/// The first string under `key` among the directories at or after `start`.
pub open spec fn first_text(dirs: Seq<JsonValue>, start: int, key: Seq<char>) -> Option<Seq<char>>
    decreases dirs.len() - start,
{
    if start < 0 || start >= dirs.len() {
        None
    } else if dirs[start].at(key).text() is Some {
        dirs[start].at(key).text()
    } else {
        first_text(dirs, start + 1, key)
    }
}

/// Whether the manifest `package` lists `name` under `section` with a
/// non-empty version.
fn lists_version(package: &JsonValue, section: &str, name: &str) -> (r: bool)
    ensures
        r == (package.at(section@).at(name@).text() matches Some(v) && v.len() > 0),
{
    let version = match package.get(section) {
        Some(s) => match s.get(name) {
            Some(v) => v.as_str(),
            None => None,
        },
        None => None,
    };
    match version {
        Some(v) => !v.is_empty(),
        None => false,
    }
}

/// Whether the manifest `package` declares `name` as a dependency or a
/// dev-dependency with a non-empty version.
pub fn declares_package(package: &JsonValue, name: &str) -> (r: bool)
    ensures
        r == declares(*package, name@),
{
    lists_version(package, "dependencies", name) || lists_version(package, "devDependencies", name)
}

/// The first directory string under `key` from position `start` on.
fn find_text<'a>(directories: &'a [JsonValue], start: usize, key: &str) -> (r: Option<&'a str>)
    requires
        start <= directories@.len(),
    ensures
        opt_chars(r) == first_text(directories@, start as int, key@),
{
    let n = directories.len();
    let mut i = start;
    while i < n
        invariant
            n == directories@.len(),
            start <= i <= n,
            first_text(directories@, start as int, key@) == first_text(directories@, i as int, key@),
        decreases n - i,
    {
        let found = match directories[i].get(key) {
            Some(v) => v.as_str(),
            None => None,
        };
        if found.is_some() {
            return found;
        }
        i = i + 1;
    }
    None
}

/// The first directory whose manifest declares `name`.
fn find_declaring(directories: &[JsonValue], name: &str) -> (r: Option<usize>)
    ensures
        match r {
            Some(i) => i < directories@.len() && first_declaring(directories@, 0, name@) == Some(i as int),
            None => first_declaring(directories@, 0, name@) is None,
        },
{
    let n = directories.len();
    let mut i: usize = 0;
    while i < n
        invariant
            n == directories@.len(),
            i <= n,
            first_declaring(directories@, 0, name@) == first_declaring(directories@, i as int, name@),
        decreases n - i,
    {
        let declared = match directories[i].get("package") {
            Some(p) => declares_package(p, name),
            None => declares_package(&JsonValue::Null, name),
        };
        if declared {
            return Some(i);
        }
        i = i + 1;
    }
    None
}

/// The standalone server that the first directory declaring `package`, or
/// a directory above it, provides.
pub fn standalone_path<'a>(directories: &'a [JsonValue], package: &str) -> (r: Option<&'a str>)
    ensures
        opt_chars(r) == match first_declaring(directories@, 0, package@) {
            Some(i) => first_text(directories@, i, "standalone"@),
            None => None,
        },
{
    let index = find_declaring(directories, package);
    match index {
        Some(i) => find_text(directories, i, "standalone"),
        None => None,
    }
}

/// The Vite+ project that the directories hold under the given options:
/// its root and its `vp` path. None with `oxc`. Where Vite+ is forced (by
/// `vite-plus` or a `vpPath`) the project is the first directory with a
/// manifest, else the innermost; otherwise it is the first directory whose
/// manifest declares `vite-plus`. The `vp` path is the configured one, else
/// the first one reported from the project upwards.
pub open spec fn detected(
    dirs: Seq<JsonValue>,
    source: BinarySource,
    vp: Option<Seq<char>>,
) -> Option<(Seq<char>, Option<Seq<char>>)> {
    if source == BinarySource::Oxc {
        None
    } else {
        let forced = source == BinarySource::VitePlus || vp is Some;
        let index = if forced {
            Some(
                match first_with_manifest(dirs, 0) {
                    Some(i) => i,
                    None => 0,
                },
            )
        } else {
            first_declaring(dirs, 0, "vite-plus"@)
        };
        match index {
            Some(i) => if 0 <= i < dirs.len() && dirs[i].at("root"@).text() is Some {
                Some(
                    (
                        dirs[i].at("root"@).text()->0,
                        if vp is Some {
                            vp
                        } else {
                            first_text(dirs, i, "vp"@)
                        },
                    ),
                )
            } else {
                None
            },
            None => None,
        }
    }
}

/// The first directory that has a manifest object.
fn find_with_manifest(directories: &[JsonValue]) -> (r: Option<usize>)
    ensures
        match r {
            Some(i) => i < directories@.len() && first_with_manifest(directories@, 0) == Some(i as int),
            None => first_with_manifest(directories@, 0) is None,
        },
{
    let n = directories.len();
    let mut i: usize = 0;
    while i < n
        invariant
            n == directories@.len(),
            i <= n,
            first_with_manifest(directories@, 0) == first_with_manifest(directories@, i as int),
        decreases n - i,
    {
        let is_object = match directories[i].get("package") {
            Some(p) => p.is_object(),
            None => false,
        };
        if is_object {
            return Some(i);
        }
        i = i + 1;
    }
    None
}

/// Finds the Vite+ project among the directories, innermost first, that
/// the inspection script reported.
pub fn detect_project(directories: &[JsonValue], options: &Options) -> (r: Option<Project>)
    ensures
        match r {
            Some(p) => detected(directories@, options.source, options.vp_path.deep_view())
                == Some((p.root@, p.vp_path.deep_view())),
            None => detected(directories@, options.source, options.vp_path.deep_view()) is None,
        },
{
    if options.source == BinarySource::Oxc {
        return None;
    }
    let forced = options.source == BinarySource::VitePlus || options.vp_path.is_some();
    let index = if forced {
        match find_with_manifest(directories) {
            Some(i) => i,
            None => 0,
        }
    } else {
        match find_declaring(directories, "vite-plus") {
            Some(i) => i,
            None => {
                return None;
            },
        }
    };
    if index >= directories.len() {
        return None;
    }
    let root = match directories[index].get("root") {
        Some(v) => match v.as_str() {
            Some(s) => s.to_owned(),
            None => {
                return None;
            },
        },
        None => {
            return None;
        },
    };
    let vp_path = match &options.vp_path {
        Some(p) => Some(p.clone()),
        None => match find_text(directories, index, "vp") {
            Some(s) => Some(s.to_owned()),
            None => None,
        },
    };
    Some(Project { root, vp_path })
}

/// The arguments that run the inspection script `script` in `mode` on
/// `path` for `tool`.
pub fn inspect_args(script: &str, mode: &str, path: &str, tool: &str) -> (r: Vec<String>)
    ensures
        r.deep_view() == seq!["-e"@, script@, "--"@, mode@, path@, tool@],
{
    let mut r: Vec<String> = Vec::new();
    r.push("-e".to_owned());
    r.push(script.to_owned());
    r.push("--".to_owned());
    r.push(mode.to_owned());
    r.push(path.to_owned());
    r.push(tool.to_owned());
    assert(r.deep_view() =~= seq!["-e"@, script@, "--"@, mode@, path@, tool@]);
    r
}

/// The error for an inspection that did not exit with status 0.
pub open spec fn inspection_error_text(tool: Seq<char>, stderr: Seq<char>) -> Seq<char> {
    "Could not inspect the "@ + tool + " installation: "@ + stderr
}

/// The error of an inspection of `tool` that exited with `status` and
/// wrote `stderr`; none for status 0.
pub fn inspection_error(tool: &str, status: Option<i32>, stderr: &str) -> (r: Option<String>)
    ensures
        status == Some(0i32) <==> r is None,
        r matches Some(e) ==> e@ == inspection_error_text(tool@, stderr@),
{
    match status {
        Some(0) => None,
        _ => {
            let mut message = "Could not inspect the ".to_owned();
            message.append(tool);
            message.append(" installation: ");
            message.append(stderr);
            Some(message)
        },
    }
}

/// The error for installation information that is not JSON.
pub open spec fn invalid_information_text(error: Seq<char>) -> Seq<char> {
    "Invalid installation information: "@ + error
}

/// The installation information that an inspection printed, or the error
/// that reading it as JSON gave.
pub fn installation_info(parsed: Result<JsonValue, String>) -> (r: Result<JsonValue, String>)
    ensures
        parsed is Ok ==> r == parsed,
        parsed matches Err(e) ==> r matches Err(m) && m@ == invalid_information_text(e@),
{
    match parsed {
        Ok(v) => Ok(v),
        Err(e) => {
            let mut message = "Invalid installation information: ".to_owned();
            message.append(e.as_str());
            Err(message)
        },
    }
}

} // verus!
