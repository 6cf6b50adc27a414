//! Environment variable tables: lists of name and value pairs whose names
//! are held in ascending order, each name once.

use vstd::prelude::*;
use crate::text::{
    chars_less, chars_of, eq_ignoring_ascii_case, lemma_chars_less_irreflexive, lemma_chars_less_total,
    lemma_chars_less_transitive, str_eq, str_eq_ignore_ascii_case, str_less,
};

verus! {

/// The names of the table ascend strictly.
pub open spec fn names_ascending(vars: Seq<(String, String)>) -> bool {
    forall|i: int, j: int| 0 <= i < j < vars.len() ==> chars_less(#[trigger] vars[i].0@, #[trigger] vars[j].0@)
}

/// Some variable of the table has the name `name`.
pub open spec fn has_name(vars: Seq<(String, String)>, name: Seq<char>) -> bool {
    exists|i: int| 0 <= i < vars.len() && #[trigger] vars[i].0@ == name
}

/// The map from names to values that a table denotes.
pub open spec fn vars_map(vars: Seq<(String, String)>) -> Map<Seq<char>, Seq<char>> {
    Map::new(
        |k: Seq<char>| has_name(vars, k),
        |k: Seq<char>| vars[choose|i: int| 0 <= i < vars.len() && #[trigger] vars[i].0@ == k].1@,
    )
}

/// In an ascending table the variable at `i` is what the map holds for its
/// name.
pub proof fn lemma_vars_map_at(vars: Seq<(String, String)>, i: int)
    requires
        names_ascending(vars),
        0 <= i < vars.len(),
    ensures
        vars_map(vars).contains_key(vars[i].0@),
        vars_map(vars)[vars[i].0@] == vars[i].1@,
{
    let k = vars[i].0@;
    assert(has_name(vars, k));
    lemma_chars_less_irreflexive(k);
    let j = choose|j: int| 0 <= j < vars.len() && #[trigger] vars[j].0@ == k;
    assert(vars[j].0@ == k);
    if j < i {
        assert(chars_less(vars[j].0@, vars[i].0@));
    } else if i < j {
        assert(chars_less(vars[i].0@, vars[j].0@));
    }
}

/// Putting a variable in its place, before every greater name and after
/// every smaller one, keeps the table ascending and sets the name.
pub proof fn lemma_vars_insert(vars: Seq<(String, String)>, p: int, name: String, value: String)
    requires
        names_ascending(vars),
        0 <= p <= vars.len(),
        forall|i: int| 0 <= i < p ==> chars_less(#[trigger] vars[i].0@, name@),
        forall|i: int| p <= i < vars.len() ==> chars_less(name@, #[trigger] vars[i].0@),
    ensures
        names_ascending(vars.insert(p, (name, value))),
        vars_map(vars.insert(p, (name, value))) =~= vars_map(vars).insert(name@, value@),
{
    let r = vars.insert(p, (name, value));
    assert forall|i: int, j: int| 0 <= i < j < r.len() implies chars_less(#[trigger] r[i].0@, #[trigger] r[j].0@) by {
        if j < p {
            assert(r[i] == vars[i] && r[j] == vars[j]);
        } else if j == p {
            assert(r[i] == vars[i]);
        } else if i < p {
            assert(r[i] == vars[i] && r[j] == vars[j - 1]);
            lemma_chars_less_transitive(vars[i].0@, name@, vars[j - 1].0@);
        } else if i == p {
            assert(r[j] == vars[j - 1]);
        } else {
            assert(r[i] == vars[i - 1] && r[j] == vars[j - 1]);
        }
    }
    assert forall|k: Seq<char>| #[trigger] has_name(r, k) <==> has_name(vars, k) || k == name@ by {
        if has_name(r, k) {
            let a = choose|a: int| 0 <= a < r.len() && #[trigger] r[a].0@ == k;
            if a < p {
                assert(r[a] == vars[a]);
            } else if a > p {
                assert(r[a] == vars[a - 1]);
            }
        }
        if has_name(vars, k) {
            let a = choose|a: int| 0 <= a < vars.len() && #[trigger] vars[a].0@ == k;
            if a < p {
                assert(r[a] == vars[a]);
            } else {
                assert(r[a + 1] == vars[a]);
            }
        }
        if k == name@ {
            assert(r[p].0@ == k);
        }
    }
    assert forall|k: Seq<char>| #[trigger] has_name(r, k) implies vars_map(r)[k] == vars_map(vars).insert(name@, value@)[k] by {
        let a = choose|a: int| 0 <= a < r.len() && #[trigger] r[a].0@ == k;
        lemma_vars_map_at(r, a);
        if a < p {
            assert(r[a] == vars[a]);
            lemma_vars_map_at(vars, a);
            if k == name@ {
                lemma_chars_less_irreflexive(k);
            }
        } else if a > p {
            assert(r[a] == vars[a - 1]);
            lemma_vars_map_at(vars, a - 1);
            if k == name@ {
                lemma_chars_less_irreflexive(k);
            }
        }
    }
}

/// Replacing the value of the variable at `p` keeps the table ascending
/// and sets its name to the new value.
pub proof fn lemma_vars_update(vars: Seq<(String, String)>, p: int, name: String, value: String)
    requires
        names_ascending(vars),
        0 <= p < vars.len(),
        vars[p].0@ == name@,
    ensures
        names_ascending(vars.update(p, (name, value))),
        vars_map(vars.update(p, (name, value))) =~= vars_map(vars).insert(name@, value@),
{
    let r = vars.update(p, (name, value));
    assert forall|i: int, j: int| 0 <= i < j < r.len() implies chars_less(#[trigger] r[i].0@, #[trigger] r[j].0@) by {
        assert(r[i].0@ == vars[i].0@ && r[j].0@ == vars[j].0@);
    }
    assert forall|k: Seq<char>| #[trigger] has_name(r, k) <==> has_name(vars, k) by {
        if has_name(r, k) {
            let a = choose|a: int| 0 <= a < r.len() && #[trigger] r[a].0@ == k;
            assert(vars[a].0@ == k);
        }
        if has_name(vars, k) {
            let a = choose|a: int| 0 <= a < vars.len() && #[trigger] vars[a].0@ == k;
            assert(r[a].0@ == k);
        }
    }
    assert forall|k: Seq<char>| #[trigger] has_name(r, k) implies vars_map(r)[k] == vars_map(vars).insert(name@, value@)[k] by {
        let a = choose|a: int| 0 <= a < r.len() && #[trigger] r[a].0@ == k;
        lemma_vars_map_at(r, a);
        lemma_chars_less_irreflexive(k);
        if a != p {
            assert(r[a] == vars[a]);
            lemma_vars_map_at(vars, a);
            if a < p {
                assert(chars_less(vars[a].0@, vars[p].0@));
            } else {
                assert(chars_less(vars[p].0@, vars[a].0@));
            }
        }
    }
    lemma_vars_map_at(vars, p);
}

/// Sets the variable `name` to `value` in an ascending table, keeping it
/// ascending.
pub fn set_var(vars: &mut Vec<(String, String)>, name: String, value: String)
    requires
        names_ascending(old(vars)@),
    ensures
        names_ascending(final(vars)@),
        vars_map(final(vars)@) == vars_map(old(vars)@).insert(name@, value@),
{
    let n = vars.len();
    let mut p: usize = 0;
    while p < n && str_less(vars[p].0.as_str(), name.as_str())
        invariant
            n == vars@.len(),
            p <= n,
            names_ascending(vars@),
            forall|i: int| 0 <= i < p ==> chars_less(#[trigger] vars@[i].0@, name@),
        decreases n - p,
    {
        p = p + 1;
    }
    if p < n && str_eq(vars[p].0.as_str(), name.as_str()) {
        proof { lemma_vars_update(vars@, p as int, name, value); }
        vars.remove(p);
        vars.insert(p, (name, value));
        assert(vars@ =~= old(vars)@.update(p as int, (name, value)));
    } else {
        proof {
            assert forall|i: int| p <= i < vars@.len() implies chars_less(name@, #[trigger] vars@[i].0@) by {
                if i == p {
                    lemma_chars_less_total(name@, vars@[i].0@);
                } else {
                    assert(chars_less(vars@[p as int].0@, vars@[i].0@));
                    lemma_chars_less_total(name@, vars@[p as int].0@);
                    lemma_chars_less_transitive(name@, vars@[p as int].0@, vars@[i].0@);
                }
            }
            lemma_vars_insert(vars@, p as int, name, value);
        }
        vars.insert(p, (name, value));
    }
}

/// The name under which a variable is kept: any spelling of `PATH`
/// becomes `PATH`.
pub open spec fn env_name(name: Seq<char>) -> Seq<char> {
    if eq_ignoring_ascii_case(name, "PATH"@) {
        "PATH"@
    } else {
        name
    }
}

/// The variables that setting each pair in turn gives, later pairs taking
/// the place of earlier ones with the same name.
pub open spec fn merged_vars(pairs: Seq<(String, String)>) -> Map<Seq<char>, Seq<char>>
    decreases pairs.len(),
{
    if pairs.len() == 0 {
        Map::empty()
    } else {
        merged_vars(pairs.drop_last()).insert(env_name(pairs.last().0@), pairs.last().1@)
    }
}

/// Sets each pair in turn in an empty table, the name spelled as
/// `env_name` says.
pub fn merge_vars(pairs: &Vec<(String, String)>) -> (r: Vec<(String, String)>)
    ensures
        names_ascending(r@),
        vars_map(r@) == merged_vars(pairs@),
{
    let mut env: Vec<(String, String)> = Vec::new();
    let n = pairs.len();
    let mut i: usize = 0;
    assert(vars_map(env@) =~= merged_vars(pairs@.take(0)));
    while i < n
        invariant
            n == pairs@.len(),
            i <= n,
            names_ascending(env@),
            vars_map(env@) == merged_vars(pairs@.take(i as int)),
        decreases n - i,
    {
        let name = if str_eq_ignore_ascii_case(pairs[i].0.as_str(), "PATH") {
            "PATH".to_owned()
        } else {
            pairs[i].0.clone()
        };
        let value = pairs[i].1.clone();
        set_var(&mut env, name, value);
        assert(pairs@.take(i + 1).drop_last() =~= pairs@.take(i as int));
        i = i + 1;
    }
    assert(pairs@.take(n as int) =~= pairs@);
    env
}

/// The value of the variable `name`, where the table has one.
pub fn var_value<'a>(vars: &'a Vec<(String, String)>, name: &str) -> (r: Option<&'a String>)
    requires
        names_ascending(vars@),
    ensures
        r is Some <==> vars_map(vars@).contains_key(name@),
        r matches Some(v) ==> v@ == vars_map(vars@)[name@],
{
    let n = vars.len();
    let mut i: usize = 0;
    while i < n
        invariant
            n == vars@.len(),
            i <= n,
            names_ascending(vars@),
            forall|j: int| 0 <= j < i ==> vars@[j].0@ != name@,
        decreases n - i,
    {
        if str_eq(vars[i].0.as_str(), name) {
            proof { lemma_vars_map_at(vars@, i as int); }
            return Some(&vars[i].1);
        }
        i = i + 1;
    }
    None
}

/// A path that needs no directory before it: it starts with `/` or a backslash, or
/// its second byte is `:` (a drive letter). Paths are read with Unix syntax
/// whatever the host.
pub open spec fn is_absolute_path(path: Seq<char>) -> bool {
    ||| path.len() > 0 && (path[0] == '/' || path[0] == '\\')
    ||| vstd::utf8::encode_utf8(path).len() > 1 && vstd::utf8::encode_utf8(path)[1] == 58u8
}

/// Whether `path` needs no directory before it.
pub fn path_is_absolute(path: &str) -> (r: bool)
    ensures
        r == is_absolute_path(path@),
{
    let chars = chars_of(path);
    let bytes = path.as_bytes();
    (chars.len() > 0 && (chars[0] == '/' || chars[0] == '\\')) || (bytes.len() > 1 && bytes[1] == 58u8)
}

} // verus!
