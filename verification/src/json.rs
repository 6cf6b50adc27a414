//! A JSON document model: the values that the language-server settings and
//! the project inspection hand over.

use vstd::prelude::*;

verus! {

/// A JSON value. Numbers are carried as their decimal text: nothing in this
/// library computes with them.
#[derive(Debug, PartialEq, Eq)]
pub enum JsonValue {
    Null,
    Bool(bool),
    Number(String),
    String(String),
    Array(Vec<JsonValue>),
    Object(JsonObject),
}

/// A JSON object: a list of members whose keys are pairwise distinct.
#[derive(Debug, PartialEq, Eq)]
pub struct JsonObject {
    members: Vec<(String, JsonValue)>,
}

/// The keys of a list of members are pairwise distinct.
pub open spec fn distinct_keys(members: Seq<(String, JsonValue)>) -> bool {
    forall|i: int, j: int|
        0 <= i < members.len() && 0 <= j < members.len() && i != j
            ==> #[trigger] members[i].0@ != #[trigger] members[j].0@
}

/// Some member of the list has the key `key`.
pub open spec fn has_key(members: Seq<(String, JsonValue)>, key: Seq<char>) -> bool {
    exists|i: int| 0 <= i < members.len() && #[trigger] members[i].0@ == key
}

/// The map from keys to values that a list of members denotes.
pub open spec fn members_map(members: Seq<(String, JsonValue)>) -> Map<Seq<char>, JsonValue> {
    Map::new(
        |k: Seq<char>| has_key(members, k),
        |k: Seq<char>| members[choose|i: int| 0 <= i < members.len() && #[trigger] members[i].0@ == k].1,
    )
}

/// With distinct keys, the member at `i` is what the map holds for its key.
pub proof fn lemma_members_map_at(members: Seq<(String, JsonValue)>, i: int)
    requires
        distinct_keys(members),
        0 <= i < members.len(),
    ensures
        members_map(members).contains_key(members[i].0@),
        members_map(members)[members[i].0@] == members[i].1,
{
    let k = members[i].0@;
    assert(has_key(members, k));
    let j = choose|j: int| 0 <= j < members.len() && #[trigger] members[j].0@ == k;
    assert(members[j].0@ == k);
    if j != i {
        assert(members[i].0@ != members[j].0@);
    }
}

/// Removing the member at `i` removes its key from the map.
pub proof fn lemma_members_remove(members: Seq<(String, JsonValue)>, i: int)
    requires
        distinct_keys(members),
        0 <= i < members.len(),
    ensures
        distinct_keys(members.remove(i)),
        members_map(members.remove(i)) =~= members_map(members).remove(members[i].0@),
{
    let r = members.remove(i);
    assert forall|a: int, b: int|
        0 <= a < r.len() && 0 <= b < r.len() && a != b implies #[trigger] r[a].0@ != #[trigger] r[b].0@ by {
        let a0 = if a < i { a } else { a + 1 };
        let b0 = if b < i { b } else { b + 1 };
        assert(r[a] == members[a0]);
        assert(r[b] == members[b0]);
        assert(members[a0].0@ != members[b0].0@);
    }
    let k = members[i].0@;
    assert forall|key: Seq<char>| #[trigger] has_key(r, key) <==> has_key(members, key) && key != k by {
        if has_key(r, key) {
            let a = choose|a: int| 0 <= a < r.len() && #[trigger] r[a].0@ == key;
            let a0 = if a < i { a } else { a + 1 };
            assert(members[a0].0@ == key);
            assert(members[a0].0@ != members[i].0@);
        }
        if has_key(members, key) && key != k {
            let a0 = choose|a: int| 0 <= a < members.len() && #[trigger] members[a].0@ == key;
            let a = if a0 < i { a0 } else { a0 - 1 };
            assert(r[a] == members[a0]);
        }
    }
    assert forall|key: Seq<char>| #[trigger] has_key(r, key) implies members_map(r)[key] == members_map(members)[key] by {
        let a = choose|a: int| 0 <= a < r.len() && #[trigger] r[a].0@ == key;
        let a0 = if a < i { a } else { a + 1 };
        assert(r[a] == members[a0]);
        lemma_members_map_at(r, a);
        lemma_members_map_at(members, a0);
    }
}

/// Replacing the value of the member at `i` updates the map at its key.
pub proof fn lemma_members_update(members: Seq<(String, JsonValue)>, i: int, key: String, value: JsonValue)
    requires
        distinct_keys(members),
        0 <= i < members.len(),
        key@ == members[i].0@,
    ensures
        distinct_keys(members.update(i, (key, value))),
        members_map(members.update(i, (key, value))) =~= members_map(members).insert(key@, value),
{
    let r = members.update(i, (key, value));
    assert forall|a: int, b: int|
        0 <= a < r.len() && 0 <= b < r.len() && a != b implies #[trigger] r[a].0@ != #[trigger] r[b].0@ by {
        assert(r[a].0@ == members[a].0@);
        assert(r[b].0@ == members[b].0@);
    }
    assert forall|k: Seq<char>| #[trigger] has_key(r, k) <==> has_key(members, k) by {
        if has_key(r, k) {
            let a = choose|a: int| 0 <= a < r.len() && #[trigger] r[a].0@ == k;
            assert(members[a].0@ == k);
        }
        if has_key(members, k) {
            let a = choose|a: int| 0 <= a < members.len() && #[trigger] members[a].0@ == k;
            assert(r[a].0@ == k);
        }
    }
    assert forall|k: Seq<char>| #[trigger] has_key(r, k) implies members_map(r)[k] == members_map(members).insert(key@, value)[k] by {
        let a = choose|a: int| 0 <= a < r.len() && #[trigger] r[a].0@ == k;
        lemma_members_map_at(r, a);
        if a != i {
            assert(r[a] == members[a]);
            lemma_members_map_at(members, a);
        }
    }
    lemma_members_map_at(members, i);
}

/// Appending a member with a new key adds that key to the map.
pub proof fn lemma_members_push(members: Seq<(String, JsonValue)>, key: String, value: JsonValue)
    requires
        distinct_keys(members),
        !has_key(members, key@),
    ensures
        distinct_keys(members.push((key, value))),
        members_map(members.push((key, value))) =~= members_map(members).insert(key@, value),
{
    let r = members.push((key, value));
    let n = members.len() as int;
    assert forall|a: int, b: int|
        0 <= a < r.len() && 0 <= b < r.len() && a != b implies #[trigger] r[a].0@ != #[trigger] r[b].0@ by {
        if a < n && b < n {
            assert(r[a] == members[a] && r[b] == members[b]);
        } else if a < n {
            assert(r[a] == members[a]);
        } else {
            assert(r[b] == members[b]);
        }
    }
    assert forall|k: Seq<char>| #[trigger] has_key(r, k) <==> has_key(members, k) || k == key@ by {
        if has_key(r, k) {
            let a = choose|a: int| 0 <= a < r.len() && #[trigger] r[a].0@ == k;
            if a < n {
                assert(members[a].0@ == k);
            }
        }
        if has_key(members, k) {
            let a = choose|a: int| 0 <= a < members.len() && #[trigger] members[a].0@ == k;
            assert(r[a].0@ == k);
        }
        if k == key@ {
            assert(r[n].0@ == k);
        }
    }
    assert forall|k: Seq<char>| #[trigger] has_key(r, k) implies members_map(r)[k] == members_map(members).insert(key@, value)[k] by {
        let a = choose|a: int| 0 <= a < r.len() && #[trigger] r[a].0@ == k;
        lemma_members_map_at(r, a);
        if a < n {
            assert(r[a] == members[a]);
            lemma_members_map_at(members, a);
        }
    }
}

/// A list of members with distinct keys grows its map one key at a time.
pub proof fn lemma_members_prefix(members: Seq<(String, JsonValue)>, k: int)
    requires
        distinct_keys(members),
        0 <= k < members.len(),
    ensures
        distinct_keys(members.take(k)),
        !has_key(members.take(k), members[k].0@),
        members.take(k).push(members[k]) =~= members.take(k + 1),
        members_map(members.take(k + 1)) =~= members_map(members.take(k)).insert(members[k].0@, members[k].1),
{
    let t = members.take(k);
    assert forall|a: int, b: int|
        0 <= a < t.len() && 0 <= b < t.len() && a != b implies #[trigger] t[a].0@ != #[trigger] t[b].0@ by {
        assert(t[a] == members[a] && t[b] == members[b]);
    }
    if has_key(t, members[k].0@) {
        let a = choose|a: int| 0 <= a < t.len() && #[trigger] t[a].0@ == members[k].0@;
        assert(t[a] == members[a]);
    }
    assert(t.push(members[k]) =~= members.take(k + 1));
    lemma_members_push(t, members[k].0, members[k].1);
}

/// The position of the member with the key `key`, if there is one.
fn find_member(members: &Vec<(String, JsonValue)>, key: &str) -> (r: Option<usize>)
    ensures
        r is Some <==> has_key(members@, key@),
        r matches Some(i) ==> i < members@.len() && members@[i as int].0@ == key@,
{
    let wanted = key.to_owned();
    let n = members.len();
    let mut i: usize = 0;
    while i < n
        invariant
            n == members@.len(),
            i <= n,
            wanted@ == key@,
            forall|j: int| 0 <= j < i ==> members@[j].0@ != key@,
        decreases n - i,
    {
        if members[i].0 == wanted {
            return Some(i);
        }
        i = i + 1;
    }
    None
}

impl JsonObject {
    #[verifier::type_invariant]
    spec fn keys_distinct(self) -> bool {
        distinct_keys(self.members@)
    }

    /// The members in the order in which they are held.
    pub closed spec fn members(self) -> Seq<(String, JsonValue)> {
        self.members@
    }

    /// An object with no members.
    pub fn new() -> (o: JsonObject)
        ensures
            o@ == Map::<Seq<char>, JsonValue>::empty(),
    {
        let o = JsonObject { members: Vec::new() };
        assert(members_map(o.members@) =~= Map::<Seq<char>, JsonValue>::empty());
        o
    }

    /// The value of the member with the key `key`, if there is one.
    pub fn get(&self, key: &str) -> (r: Option<&JsonValue>)
        ensures
            r is Some <==> self@.contains_key(key@),
            r matches Some(v) ==> *v == self@[key@],
    {
        proof { use_type_invariant(self); }
        match find_member(&self.members, key) {
            Some(i) => {
                proof { lemma_members_map_at(self.members@, i as int); }
                Some(&self.members[i].1)
            },
            None => None,
        }
    }

    /// Removes the member with the key `key` and hands back its value.
    pub fn remove(&mut self, key: &str) -> (r: Option<JsonValue>)
        ensures
            final(self)@ == old(self)@.remove(key@),
            r is Some <==> old(self)@.contains_key(key@),
            r matches Some(v) ==> v == old(self)@[key@],
    {
        proof { use_type_invariant(&*self); }
        match find_member(&self.members, key) {
            Some(i) => {
                let mut members: Vec<(String, JsonValue)> = Vec::new();
                std::mem::swap(&mut members, &mut self.members);
                proof {
                    lemma_members_map_at(members@, i as int);
                    lemma_members_remove(members@, i as int);
                }
                let (_, v) = members.remove(i);
                self.members = members;
                Some(v)
            },
            None => None,
        }
    }

    /// The members in the order in which they are held.
    pub fn entries(&self) -> (r: &Vec<(String, JsonValue)>)
        ensures
            r@ == self.members(),
            distinct_keys(r@),
            members_map(r@) == self@,
    {
        proof { use_type_invariant(self); }
        &self.members
    }

    /// Takes the object apart into its members.
    pub fn into_entries(self) -> (r: Vec<(String, JsonValue)>)
        ensures
            r@ == self.members(),
            distinct_keys(r@),
            members_map(r@) == self@,
    {
        proof { use_type_invariant(&self); }
        self.members
    }

    /// Sets every member of `other` in this object, its values taking the
    /// place of those already held under the same keys.
    pub fn extend(&mut self, other: JsonObject)
        ensures
            final(self)@ == old(self)@.union_prefer_right(other@),
    {
        let mut rest = other.into_entries();
        let ghost all = rest@;
        let n = rest.len();
        let mut k: usize = 0;
        assert(members_map(all.take(0)) =~= Map::<Seq<char>, JsonValue>::empty());
        assert(old(self)@.union_prefer_right(Map::<Seq<char>, JsonValue>::empty()) =~= old(self)@);
        while k < n
            invariant
                n == all.len(),
                k <= n,
                distinct_keys(all),
                members_map(all) == other@,
                rest@ == all.skip(k as int),
                self@ == old(self)@.union_prefer_right(members_map(all.take(k as int))),
            decreases n - k,
        {
            proof { lemma_members_prefix(all, k as int); }
            assert(rest@[0] == all[k as int]);
            let (key, value) = rest.remove(0);
            self.insert(key, value);
            assert(rest@ =~= all.skip(k + 1));
            assert(self@ =~= old(self)@.union_prefer_right(members_map(all.take(k + 1))));
            k = k + 1;
        }
        assert(all.take(n as int) =~= all);
    }

    /// Sets the value of the member with the key `key`, adding the member
    /// where there is none, and hands back the value it replaced.
    pub fn insert(&mut self, key: String, value: JsonValue) -> (r: Option<JsonValue>)
        ensures
            final(self)@ == old(self)@.insert(key@, value),
            r is Some <==> old(self)@.contains_key(key@),
            r matches Some(v) ==> v == old(self)@[key@],
    {
        proof { use_type_invariant(&*self); }
        let mut members: Vec<(String, JsonValue)> = Vec::new();
        std::mem::swap(&mut members, &mut self.members);
        match find_member(&members, key.as_str()) {
            Some(i) => {
                proof {
                    lemma_members_map_at(members@, i as int);
                    lemma_members_update(members@, i as int, key, value);
                }
                let (_, previous) = members.remove(i);
                members.insert(i, (key, value));
                proof {
                    assert(members@ =~= old(self).members@.update(i as int, (key, value)));
                }
                self.members = members;
                Some(previous)
            },
            None => {
                proof { lemma_members_push(members@, key, value); }
                members.push((key, value));
                self.members = members;
                None
            },
        }
    }
}

impl JsonValue {
    /// What `get` finds: the member's value of an object that has the key.
    pub open spec fn lookup(self, key: Seq<char>) -> Option<JsonValue> {
        match self {
            JsonValue::Object(o) => if o@.contains_key(key) {
                Some(o@[key])
            } else {
                None
            },
            _ => None,
        }
    }

    /// What indexing by a key gives: the member's value, or `null` where
    /// the value is no object or has no such member.
    pub open spec fn at(self, key: Seq<char>) -> JsonValue {
        match self.lookup(key) {
            Some(v) => v,
            None => JsonValue::Null,
        }
    }

    /// The characters of a string value.
    pub open spec fn text(self) -> Option<Seq<char>> {
        match self {
            JsonValue::String(s) => Some(s@),
            _ => None,
        }
    }

    /// The members of an object value as a map; empty for any other value.
    pub open spec fn object_map(self) -> Map<Seq<char>, JsonValue> {
        match self {
            JsonValue::Object(o) => o@,
            _ => Map::empty(),
        }
    }

    /// The value of the member with the key `key`, where this value is an
    /// object that has one.
    pub fn get(&self, key: &str) -> (r: Option<&JsonValue>)
        ensures
            r is Some <==> self.lookup(key@) is Some,
            r matches Some(v) ==> self.lookup(key@) == Some(*v),
    {
        match self {
            JsonValue::Object(o) => o.get(key),
            _ => None,
        }
    }

    /// The characters of a string value.
    pub fn as_str(&self) -> (r: Option<&str>)
        ensures
            r is Some <==> self.text() is Some,
            r matches Some(s) ==> self.text() == Some(s@),
    {
        match self {
            JsonValue::String(s) => Some(s.as_str()),
            _ => None,
        }
    }

    /// Whether this value is an object.
    pub fn is_object(&self) -> (r: bool)
        ensures
            r == (self is Object),
    {
        match self {
            JsonValue::Object(_) => true,
            _ => false,
        }
    }

    /// The items of an array value.
    pub fn as_array(&self) -> (r: Option<&Vec<JsonValue>>)
        ensures
            r is Some <==> self is Array,
            r matches Some(items) ==> *self == JsonValue::Array(*items),
    {
        match self {
            JsonValue::Array(items) => Some(items),
            _ => None,
        }
    }

    /// Whether this value is the boolean `true`.
    pub fn is_true(&self) -> (r: bool)
        ensures
            r == (*self == JsonValue::Bool(true)),
    {
        match self {
            JsonValue::Bool(b) => *b,
            _ => false,
        }
    }
}

impl View for JsonObject {
    type V = Map<Seq<char>, JsonValue>;

    closed spec fn view(&self) -> Map<Seq<char>, JsonValue> {
        members_map(self.members@)
    }
}

} // verus!
