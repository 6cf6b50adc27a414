use zed_oxc::env::{merge_vars, path_is_absolute, set_var, var_value};
use zed_oxc::lsp::{server_env, CommandSettings, LspSettings, OXFMT_SERVER_ID, OXLINT_SERVER_ID};
use zed_oxc::text::{chars_of, str_eq, str_eq_ignore_ascii_case, str_less};

fn vars(items: &[(&str, &str)]) -> Vec<(String, String)> {
    items.iter().map(|(k, v)| (k.to_string(), v.to_string())).collect()
}

fn with_env(env: &[(&str, &str)]) -> LspSettings {
    LspSettings {
        binary: Some(CommandSettings { path: None, arguments: None, env: Some(vars(env)) }),
        initialization_options: None,
        settings: None,
    }
}

#[test]
fn strings_compare_by_code_point() {
    assert!(str_less("A", "B"));
    assert!(str_less("PATH", "PATHEXT"));
    assert!(!str_less("PATHEXT", "PATH"));
    assert!(!str_less("same", "same"));
    assert!(str_less("Z", "a"));
    assert!(str_less("z", "é"));
    assert!(str_eq("abc", "abc"));
    assert!(!str_eq("abc", "abd"));
    assert_eq!(chars_of("aé"), vec!['a', 'é']);
}

#[test]
fn ascii_case_is_ignored_only_for_ascii_letters() {
    assert!(str_eq_ignore_ascii_case("Path", "PATH"));
    assert!(str_eq_ignore_ascii_case("path", "PATH"));
    assert!(!str_eq_ignore_ascii_case("PATHS", "PATH"));
    assert!(!str_eq_ignore_ascii_case("PÄTH", "PATH"));
    assert!(str_eq_ignore_ascii_case("é", "é"));
}

#[test]
fn variables_stay_in_ascending_order() {
    let mut table = Vec::new();
    set_var(&mut table, "b".to_string(), "2".to_string());
    set_var(&mut table, "a".to_string(), "1".to_string());
    set_var(&mut table, "c".to_string(), "3".to_string());
    set_var(&mut table, "b".to_string(), "two".to_string());
    assert_eq!(table, vars(&[("a", "1"), ("b", "two"), ("c", "3")]));
    assert_eq!(var_value(&table, "b").map(|s| s.as_str()), Some("two"));
    assert_eq!(var_value(&table, "d"), None);
}

#[test]
fn merging_takes_later_values_and_one_path_spelling() {
    let merged = merge_vars(&vars(&[("path", "/a"), ("X", "1"), ("Path", "/b"), ("X", "2")]));
    assert_eq!(merged, vars(&[("PATH", "/b"), ("X", "2")]));
}

#[test]
fn absolute_paths_are_recognised_with_unix_syntax() {
    assert!(path_is_absolute("/usr/bin"));
    assert!(path_is_absolute("\\\\server\\share"));
    assert!(path_is_absolute("C:\\tools"));
    assert!(path_is_absolute("C:"));
    assert!(!path_is_absolute("tools/x"));
    assert!(!path_is_absolute(""));
    assert!(!path_is_absolute("C"));
    assert!(!path_is_absolute("é:/x"));
}

#[test]
fn server_env_sorts_names_and_only_oxlint_resolves_the_linter_path() {
    let shell = vars(&[("ZED", "1"), ("HOME", "/home/u")]);
    let env = server_env(&with_env(&[("OXLINT_TSGOLINT_PATH", "bin/ts")]), shell, "/w", OXFMT_SERVER_ID);
    assert_eq!(env, vars(&[("HOME", "/home/u"), ("OXLINT_TSGOLINT_PATH", "bin/ts"), ("ZED", "1")]));
    let env = server_env(&with_env(&[("OXLINT_TSGOLINT_PATH", "é:/ts")]), vec![], "/w", OXLINT_SERVER_ID);
    assert_eq!(env, vars(&[("OXLINT_TSGOLINT_PATH", "/w/é:/ts")]));
    let no_binary = LspSettings { binary: None, initialization_options: None, settings: None };
    let env = server_env(&no_binary, vars(&[("path", "/p")]), "/w", OXLINT_SERVER_ID);
    assert_eq!(env, vars(&[("PATH", "/p")]));
}

#[test]
fn overrides_win_over_the_shell() {
    let env = server_env(
        &with_env(&[("HOME", "/override")]),
        vars(&[("HOME", "/home/u"), ("KEEP", "k")]),
        "/w",
        OXLINT_SERVER_ID,
    );
    assert_eq!(env, vars(&[("HOME", "/override"), ("KEEP", "k")]));
}
