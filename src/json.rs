//! JSON documents as a tree that the library can read and build.
//!
//! serde_json does the parsing and the printing; what the logic reads (which
//! members an object has, what a string holds) is plain data here. Numbers
//! are carried through as serde_json holds them, since nothing here reads
//! their value.
use vstd::prelude::*;

verus! {

/// serde_json's JSON number, which the tree carries through unread.
#[verifier::external_type_specification]
#[verifier::external_body]
pub struct ExNumber(serde_json::Number);

/// serde_json's JSON value, which the parsing and printing wrappers convert
/// from and to.
#[verifier::external_type_specification]
#[verifier::external_body]
pub struct ExValue(serde_json::Value);

/// A JSON value. An object is a list of members, each a name and a value;
/// one that serde_json parsed has its names unique and in sorted order.
#[derive(Debug, PartialEq)]
pub enum Json {
    Null,
    Bool(bool),
    Number(serde_json::Number),
    Str(String),
    Array(Vec<Json>),
    Object(Vec<(String, Json)>),
}

/// The tree that serde_json reads from a text, or `None` where the text is
/// not a JSON document.
pub uninterp spec fn parsed_json(text: Seq<char>) -> Option<Json>;

/// The compact text that serde_json prints for a tree.
pub uninterp spec fn json_text(v: Json) -> Seq<char>;

/// Moves a serde_json value into the library's tree, one node for one node:
/// the conversion of `parse_text`'s result, recursive as the tree is.
#[verifier::external_body]
fn tree_of(v: serde_json::Value) -> Json {
    match v {
        serde_json::Value::Null => Json::Null,
        serde_json::Value::Bool(b) => Json::Bool(b),
        serde_json::Value::Number(n) => Json::Number(n),
        serde_json::Value::String(s) => Json::Str(s),
        serde_json::Value::Array(items) => Json::Array(items.into_iter().map(tree_of).collect()),
        serde_json::Value::Object(m) => Json::Object(m.into_iter().map(|(k, x)| (k, tree_of(x))).collect()),
    }
}

/// Copies the library's tree into a serde_json value, one node for one node:
/// the conversion of `print_text`'s argument, recursive as the tree is.
#[verifier::external_body]
fn value_of(v: &Json) -> serde_json::Value {
    match v {
        Json::Null => serde_json::Value::Null,
        Json::Bool(b) => serde_json::Value::Bool(*b),
        Json::Number(n) => serde_json::Value::Number(n.clone()),
        Json::Str(s) => serde_json::Value::String(s.clone()),
        Json::Array(items) => serde_json::Value::Array(items.iter().map(value_of).collect()),
        Json::Object(ms) => serde_json::Value::Object(ms.iter().map(|(k, x)| (k.clone(), value_of(x))).collect()),
    }
}

/// Relies on serde_json::from_str into a `serde_json::Value`: whether a text
/// parses, and to what, depends on the text alone. On failure the error's
/// message is returned.
#[verifier::external_body]
fn parse_text(text: &str) -> (r: Result<Json, String>)
    ensures
        match r {
            Ok(v) => parsed_json(text@) == Some(v),
            Err(_) => parsed_json(text@) is None,
        },
{
    match serde_json::from_str::<serde_json::Value>(text) {
        Ok(v) => Ok(tree_of(v)),
        Err(e) => Err(e.to_string()),
    }
}

/// Relies on the `Display` of `serde_json::Value`, which prints compact JSON
/// text that depends on the tree alone.
#[verifier::external_body]
fn print_text(v: &Json) -> (r: String)
    ensures
        r@ == json_text(*v),
{
    value_of(v).to_string()
}

/// The first member of `entries` under `key`.
pub open spec fn member_in(entries: Seq<(String, Json)>, key: Seq<char>) -> Option<Json>
    decreases entries.len(),
{
    if entries.len() == 0 {
        None
    } else if entries[0].0@ == key {
        Some(entries[0].1)
    } else {
        member_in(entries.drop_first(), key)
    }
}

/// The member of an object under `key`; nothing for other values.
pub open spec fn member(v: Json, key: Seq<char>) -> Option<Json> {
    match v {
        Json::Object(entries) => member_in(entries@, key),
        _ => None,
    }
}

/// The value at a path of member names, with null wherever a name is
/// missing or the value on the way is not an object.
pub open spec fn at_path(v: Json, path: Seq<Seq<char>>) -> Json
    decreases path.len(),
{
    if path.len() == 0 {
        v
    } else {
        match member(v, path[0]) {
            Some(x) => at_path(x, path.drop_first()),
            None => at_path(Json::Null, path.drop_first()),
        }
    }
}

/// The views of a list of names.
pub open spec fn names_of(path: Seq<String>) -> Seq<Seq<char>> {
    path.map_values(|s: String| s@)
}

proof fn lemma_member_in_skip(entries: Seq<(String, Json)>, key: Seq<char>, i: int)
    requires
        0 <= i < entries.len(),
        entries[i].0@ != key,
    ensures
        member_in(entries.subrange(i, entries.len() as int), key) == member_in(
            entries.subrange(i + 1, entries.len() as int),
            key,
        ),
{
    assert(entries.subrange(i, entries.len() as int).drop_first() =~= entries.subrange(
        i + 1,
        entries.len() as int,
    ));
}

impl Json {
    /// Reads a JSON document; the error holds serde_json's message.
    pub fn parse(text: &str) -> (r: Result<Json, String>)
        ensures
            r is Ok <==> parsed_json(text@) is Some,
            r is Ok ==> Some(r->Ok_0) == parsed_json(text@),
    {
        parse_text(text)
    }

    /// The compact JSON text of this tree.
    pub fn to_text(&self) -> (r: String)
        ensures
            r@ == json_text(*self),
    {
        print_text(self)
    }

    /// The member of an object under `key`.
    pub fn get(&self, key: &String) -> (r: Option<&Json>)
        ensures
            match r {
                Some(v) => member(*self, key@) == Some(*v),
                None => member(*self, key@) is None,
            },
    {
        match self {
            Json::Object(entries) => {
                let i = find_entry(entries, key);
                if i < entries.len() {
                    Some(&entries[i].1)
                } else {
                    None
                }
            },
            _ => None,
        }
    }

    /// Takes the value at a path of member names out of a tree; null where
    /// the path leads nowhere.
    pub fn take_path(self, path: &Vec<String>) -> (r: Json)
        ensures
            r == at_path(self, names_of(path@)),
    {
        let ghost names = names_of(path@);
        let n = path.len();
        let mut cur = self;
        let mut i: usize = 0;
        assert(names.subrange(0, n as int) =~= names);
        while i < n
            invariant
                n == path@.len(),
                names == names_of(path@),
                i <= n,
                at_path(self, names) == at_path(cur, names.subrange(i as int, n as int)),
            decreases n - i,
        {
            let ghost rest = names.subrange(i as int, n as int);
            assert(rest[0] == path@[i as int]@);
            assert(rest.drop_first() =~= names.subrange(i + 1, n as int));
            cur = match cur.take_member(&path[i]) {
                Some(x) => x,
                None => Json::Null,
            };
            i = i + 1;
        }
        cur
    }

    /// Takes the member under `key` out of an object.
    pub fn take_member(self, key: &String) -> (r: Option<Json>)
        ensures
            r == member(self, key@),
    {
        match self {
            Json::Object(entries) => take_entry(entries, key),
            _ => None,
        }
    }
}

/// The index of the first member under `key`, or the number of members
/// where there is none.
fn find_entry(entries: &Vec<(String, Json)>, key: &String) -> (r: usize)
    ensures
        r <= entries@.len(),
        r < entries@.len() ==> member_in(entries@, key@) == Some(entries@[r as int].1),
        r == entries@.len() ==> member_in(entries@, key@) is None,
{
    let ghost all = entries@;
    let n = entries.len();
    let mut i: usize = 0;
    assert(all.subrange(0, n as int) =~= all);
    while i < n && entries[i].0 != *key
        invariant
            n == entries.len(),
            entries@ == all,
            i <= n,
            member_in(all, key@) == member_in(all.subrange(i as int, n as int), key@),
        decreases n - i,
    {
        proof {
            lemma_member_in_skip(all, key@, i as int);
        }
        i = i + 1;
    }
    if i < n {
        assert(all.subrange(i as int, n as int)[0] == all[i as int]);
    }
    i
}

/// Takes the first value under `key` out of a list of members.
fn take_entry(entries: Vec<(String, Json)>, key: &String) -> (r: Option<Json>)
    ensures
        r == member_in(entries@, key@),
{
    let i = find_entry(&entries, key);
    if i < entries.len() {
        let mut entries = entries;
        let (_, value) = entries.remove(i);
        Some(value)
    } else {
        None
    }
}

} // verus!
