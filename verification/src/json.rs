//! JSON documents as the server reads them: a tree of values whose parsing
//! and printing are done by serde_json, and whose sanitizing is the server's
//! own.

use vstd::prelude::*;
use crate::sanitize::{
    sanitizable, sanitize_short_string, sanitize_string, sanitize_within, sanitized,
    MAX_SHORT_TEXT_BYTES, MAX_TEXT_BYTES,
};

verus! {

/// A JSON number, held as the decimal text serde_json prints for it.
#[derive(Debug)]
pub struct JsonNumber {
    pub repr: String,
}

/// A JSON value. Object members keep the order in which serde_json's map
/// yields them (ascending by key).
#[derive(Debug)]
pub enum JsonValue {
    Null,
    Bool(bool),
    Number(JsonNumber),
    String(String),
    Array(Vec<JsonValue>),
    Object(Vec<(String, JsonValue)>),
}

/// The mathematical content of a `JsonValue`.
pub enum JsonTree {
    Null,
    Bool(bool),
    Number(Seq<char>),
    Str(Seq<char>),
    Array(Seq<JsonTree>),
    Object(Seq<(Seq<char>, JsonTree)>),
}

pub open spec fn json_tree(v: JsonValue) -> JsonTree
    decreases v,
{
    match v {
        JsonValue::Null => JsonTree::Null,
        JsonValue::Bool(b) => JsonTree::Bool(b),
        JsonValue::Number(n) => JsonTree::Number(n.repr@),
        JsonValue::String(s) => JsonTree::Str(s@),
        JsonValue::Array(items) => JsonTree::Array(json_trees(items@)),
        JsonValue::Object(members) => JsonTree::Object(json_members(members@)),
    }
}

pub open spec fn json_trees(items: Seq<JsonValue>) -> Seq<JsonTree>
    decreases items,
{
    if items.len() == 0 {
        Seq::empty()
    } else {
        json_trees(items.drop_last()).push(json_tree(items.last()))
    }
}

pub open spec fn json_members(members: Seq<(String, JsonValue)>) -> Seq<(Seq<char>, JsonTree)>
    decreases members,
{
    if members.len() == 0 {
        Seq::empty()
    } else {
        json_members(members.drop_last()).push(
            (members.last().0@, json_tree(members.last().1)),
        )
    }
}

impl View for JsonValue {
    type V = JsonTree;

    open spec fn view(&self) -> JsonTree {
        json_tree(*self)
    }
}

pub proof fn lemma_json_trees_index(items: Seq<JsonValue>)
    ensures
        json_trees(items).len() == items.len(),
        forall|i: int| 0 <= i < items.len() ==> #[trigger] json_trees(items)[i] == json_tree(items[i]),
    decreases items.len(),
{
    if items.len() > 0 {
        lemma_json_trees_index(items.drop_last());
    }
}

pub proof fn lemma_json_members_index(members: Seq<(String, JsonValue)>)
    ensures
        json_members(members).len() == members.len(),
        forall|i: int|
            0 <= i < members.len() ==> #[trigger] json_members(members)[i] == (
                members[i].0@,
                json_tree(members[i].1),
            ),
    decreases members.len(),
{
    if members.len() > 0 {
        lemma_json_members_index(members.drop_last());
    }
}

proof fn lemma_json_trees_push(items: Seq<JsonValue>, x: JsonValue)
    ensures
        json_trees(items.push(x)) == json_trees(items).push(json_tree(x)),
{
    assert(items.push(x).drop_last() =~= items);
}

/// Whether member `i` is the first one with key `k`.
pub open spec fn first_key_index(members: Seq<(Seq<char>, JsonTree)>, k: Seq<char>, i: int) -> bool {
    &&& 0 <= i < members.len()
    &&& members[i].0 == k
    &&& forall|j: int| 0 <= j < i ==> members[j].0 != k
}

/// The value stored under `k` in an object's members (the first match).
pub open spec fn member_lookup(members: Seq<(Seq<char>, JsonTree)>, k: Seq<char>) -> Option<JsonTree> {
    if exists|i: int| first_key_index(members, k, i) {
        Some(members[choose|i: int| first_key_index(members, k, i)].1)
    } else {
        None
    }
}

/// `value.get(key)` on a serde_json value: the member of an object under
/// `key`, nothing for any other value.
pub open spec fn tree_get(t: JsonTree, k: Seq<char>) -> Option<JsonTree> {
    match t {
        JsonTree::Object(members) => member_lookup(members, k),
        _ => None,
    }
}

/// `value.as_str()`.
pub open spec fn tree_text(t: Option<JsonTree>) -> Option<Seq<char>> {
    match t {
        Some(JsonTree::Str(s)) => Some(s),
        _ => None,
    }
}

/// `value.as_f64()` held as the number's decimal text: every JSON number
/// converts.
pub open spec fn tree_number(t: Option<JsonTree>) -> Option<Seq<char>> {
    match t {
        Some(JsonTree::Number(n)) => Some(n),
        _ => None,
    }
}

/// `members` with `k` mapped to `v`: the first member under `k` replaced,
/// or a new member appended, as inserting into serde_json's map behaves.
pub open spec fn insert_member(
    members: Seq<(Seq<char>, JsonTree)>,
    k: Seq<char>,
    v: JsonTree,
) -> Seq<(Seq<char>, JsonTree)> {
    if exists|i: int| first_key_index(members, k, i) {
        members.update(choose|i: int| first_key_index(members, k, i), (k, v))
    } else {
        members.push((k, v))
    }
}

/// Largest number of array elements a sanitized array keeps.
pub const MAX_ARRAY_ITEMS: usize = 100;

/// Largest number of object members a sanitized object keeps.
pub const MAX_OBJECT_MEMBERS: usize = 50;

pub open spec fn min_len(len: nat, cap: nat) -> nat {
    if len < cap {
        len
    } else {
        cap
    }
}

/// The sanitized form of a JSON tree: every string cleaned and cut to 1024
/// bytes, every kept key cleaned and cut to 256 bytes, arrays cut to their
/// first 100 elements, objects built from their first 50 members.
pub open spec fn sanitized_tree(t: JsonTree) -> JsonTree
    decreases t, 0nat,
{
    match t {
        JsonTree::Str(s) => JsonTree::Str(sanitized(s, MAX_TEXT_BYTES as nat)),
        JsonTree::Array(items) => JsonTree::Array(
            sanitized_items(items, min_len(items.len(), MAX_ARRAY_ITEMS as nat)),
        ),
        JsonTree::Object(members) => JsonTree::Object(
            sanitized_members(members, min_len(members.len(), MAX_OBJECT_MEMBERS as nat)),
        ),
        other => other,
    }
}

/// The first `n` items, each sanitized.
pub open spec fn sanitized_items(items: Seq<JsonTree>, n: nat) -> Seq<JsonTree>
    decreases items, n,
{
    if n == 0 || n > items.len() {
        Seq::empty()
    } else {
        sanitized_items(items, (n - 1) as nat).push(sanitized_tree(items[n - 1]))
    }
}

/// The first `n` members, inserted in order under their sanitized keys.
pub open spec fn sanitized_members(members: Seq<(Seq<char>, JsonTree)>, n: nat) -> Seq<
    (Seq<char>, JsonTree),
>
    decreases members, n,
{
    if n == 0 || n > members.len() {
        Seq::empty()
    } else {
        insert_member(
            sanitized_members(members, (n - 1) as nat),
            sanitized(members[n - 1].0, MAX_SHORT_TEXT_BYTES as nat),
            sanitized_tree(members[n - 1].1),
        )
    }
}

/// Whether sanitizing the tree cuts no text inside a character.
pub open spec fn tree_sanitizable(t: JsonTree) -> bool
    decreases t, 0nat,
{
    match t {
        JsonTree::Str(s) => sanitizable(s, MAX_TEXT_BYTES as nat),
        JsonTree::Array(items) => items_sanitizable(
            items,
            min_len(items.len(), MAX_ARRAY_ITEMS as nat),
        ),
        JsonTree::Object(members) => members_sanitizable(
            members,
            min_len(members.len(), MAX_OBJECT_MEMBERS as nat),
        ),
        _ => true,
    }
}

pub open spec fn items_sanitizable(items: Seq<JsonTree>, n: nat) -> bool
    decreases items, n,
{
    if n == 0 || n > items.len() {
        true
    } else {
        items_sanitizable(items, (n - 1) as nat) && tree_sanitizable(items[n - 1])
    }
}

pub open spec fn members_sanitizable(members: Seq<(Seq<char>, JsonTree)>, n: nat) -> bool
    decreases members, n,
{
    if n == 0 || n > members.len() {
        true
    } else {
        &&& members_sanitizable(members, (n - 1) as nat)
        &&& sanitizable(members[n - 1].0, MAX_SHORT_TEXT_BYTES as nat)
        &&& tree_sanitizable(members[n - 1].1)
    }
}

/// The value under `key` when `v` is an object, as `Value::get` finds it.
pub fn json_get<'a>(v: &'a JsonValue, key: &str) -> (r: Option<&'a JsonValue>)
    ensures
        match r {
            Some(x) => tree_get(v@, key@) == Some(x@),
            None => tree_get(v@, key@) is None,
        },
{
    match v {
        JsonValue::Object(members) => {
            let k = key.to_owned();
            let ghost ms = json_members(members@);
            proof { lemma_json_members_index(members@); }
            assert(v@ == JsonTree::Object(ms));
            let mut i: usize = 0;
            while i < members.len()
                invariant
                    v@ == JsonTree::Object(ms),
                    ms == json_members(members@),
                    ms.len() == members@.len(),
                    k@ == key@,
                    i <= members.len(),
                    forall|j: int| 0 <= j < i ==> ms[j].0 != key@,
                    forall|j: int|
                        0 <= j < members@.len() ==> #[trigger] ms[j] == (
                            members@[j].0@,
                            json_tree(members@[j].1),
                        ),
                decreases members.len() - i,
            {
                if members[i].0 == k {
                    assert(first_key_index(ms, key@, i as int));
                    let ghost c = choose|c: int| first_key_index(ms, key@, c);
                    assert(c == i) by {
                        if c < i {
                        } else if c > i {
                            assert(ms[i as int].0 == key@);
                        }
                    }
                    assert(ms[i as int].1 == members@[i as int].1@);
                    return Some(&members[i].1);
                }
                i = i + 1;
            }
            assert(!exists|c: int| first_key_index(ms, key@, c));
            None
        },
        _ => None,
    }
}

/// The tree of an optional value.
pub open spec fn opt_tree(v: Option<&JsonValue>) -> Option<JsonTree> {
    match v {
        Some(x) => Some(x@),
        None => None,
    }
}

/// `value.as_str()`.
pub fn json_text(v: Option<&JsonValue>) -> (r: Option<&String>)
    ensures
        match r {
            Some(s) => tree_text(opt_tree(v)) == Some(s@),
            None => tree_text(opt_tree(v)) is None,
        },
{
    match v {
        Some(JsonValue::String(s)) => Some(s),
        _ => None,
    }
}

/// `value.as_f64()`, answered with the number's decimal text.
pub fn json_number(v: Option<&JsonValue>) -> (r: Option<&JsonNumber>)
    ensures
        match r {
            Some(n) => tree_number(opt_tree(v)) == Some(n.repr@),
            None => tree_number(opt_tree(v)) is None,
        },
{
    match v {
        Some(JsonValue::Number(n)) => Some(n),
        _ => None,
    }
}

proof fn lemma_json_members_push(members: Seq<(String, JsonValue)>, x: (String, JsonValue))
    ensures
        json_members(members.push(x)) == json_members(members).push((x.0@, json_tree(x.1))),
{
    assert(members.push(x).drop_last() =~= members);
}

proof fn lemma_json_members_update(members: Seq<(String, JsonValue)>, i: int, x: (String, JsonValue))
    requires
        0 <= i < members.len(),
    ensures
        json_members(members.update(i, x)) == json_members(members).update(
            i,
            (x.0@, json_tree(x.1)),
        ),
{
    lemma_json_members_index(members);
    lemma_json_members_index(members.update(i, x));
    assert(json_members(members.update(i, x)) =~= json_members(members).update(
        i,
        (x.0@, json_tree(x.1)),
    ));
}

pub(crate) proof fn lemma_items_sanitizable(items: Seq<JsonTree>, n: nat)
    requires
        items_sanitizable(items, n),
        n <= items.len(),
    ensures
        forall|i: int| 0 <= i < n ==> #[trigger] tree_sanitizable(items[i]),
    decreases n,
{
    if n > 0 {
        lemma_items_sanitizable(items, (n - 1) as nat);
    }
}

pub(crate) proof fn lemma_members_sanitizable(members: Seq<(Seq<char>, JsonTree)>, n: nat)
    requires
        members_sanitizable(members, n),
        n <= members.len(),
    ensures
        forall|i: int|
            0 <= i < n ==> sanitizable(#[trigger] members[i].0, MAX_SHORT_TEXT_BYTES as nat)
                && tree_sanitizable(members[i].1),
    decreases n,
{
    if n > 0 {
        lemma_members_sanitizable(members, (n - 1) as nat);
        assert forall|i: int| 0 <= i < n implies sanitizable(
            #[trigger] members[i].0,
            MAX_SHORT_TEXT_BYTES as nat,
        ) && tree_sanitizable(members[i].1) by {
            if i < n - 1 {
            } else {
                assert(i == n - 1);
            }
        }
    }
}

/// Maps `key` to `value` in an object's members, replacing the first member
/// under `key` or appending a new one.
pub fn insert_json_member(members: &mut Vec<(String, JsonValue)>, key: String, value: JsonValue)
    ensures
        json_members(final(members)@) == insert_member(json_members(old(members)@), key@, value@),
{
    let ghost ms = json_members(old(members)@);
    proof { lemma_json_members_index(old(members)@); }
    let mut i: usize = 0;
    while i < members.len()
        invariant
            members@ == old(members)@,
            ms == json_members(members@),
            ms.len() == members@.len(),
            i <= members.len(),
            forall|j: int| 0 <= j < i ==> ms[j].0 != key@,
            forall|j: int|
                0 <= j < members@.len() ==> #[trigger] ms[j] == (
                    members@[j].0@,
                    json_tree(members@[j].1),
                ),
        decreases members.len() - i,
    {
        if members[i].0 == key {
            assert(first_key_index(ms, key@, i as int));
            let ghost c = choose|c: int| first_key_index(ms, key@, c);
            assert(c == i) by {
                if c > i {
                    assert(ms[i as int].0 == key@);
                }
            }
            proof { lemma_json_members_update(members@, i as int, (key, value)); }
            members.set(i, (key, value));
            return ;
        }
        i = i + 1;
    }
    assert(!exists|c: int| first_key_index(ms, key@, c));
    proof { lemma_json_members_push(members@, (key, value)); }
    members.push((key, value));
}

/// Sanitizes a client's JSON document: strings cleaned and cut to 1024
/// bytes, keys to 256 bytes, arrays to 100 elements, objects to their first
/// 50 members; numbers, booleans and null are kept.
#[verifier::loop_isolation(false)]
pub fn sanitize_json_value(value: &JsonValue) -> (r: JsonValue)
    requires
        tree_sanitizable(value@),
    ensures
        r@ == sanitized_tree(value@),
    decreases value,
{
    match value {
        JsonValue::String(s) => JsonValue::String(sanitize_string(s.as_str())),
        JsonValue::Object(members) => {
            let ghost ms = json_members(members@);
            proof {
                lemma_json_members_index(members@);
            }
            let n: usize = if members.len() < MAX_OBJECT_MEMBERS {
                members.len()
            } else {
                MAX_OBJECT_MEMBERS
            };
            proof {
                lemma_members_sanitizable(ms, n as nat);
            }
            let mut out: Vec<(String, JsonValue)> = Vec::new();
            let mut i: usize = 0;
            while i < n
                invariant
                    ms == json_members(members@),
                    ms.len() == members@.len(),
                    n <= members@.len(),
                    i <= n,
                    json_members(out@) == sanitized_members(ms, i as nat),
                    forall|j: int|
                        0 <= j < members@.len() ==> #[trigger] ms[j] == (
                            members@[j].0@,
                            json_tree(members@[j].1),
                        ),
                decreases n - i,
            {
                assert(ms[i as int].0 == members@[i as int].0@);
                assert(sanitizable(ms[i as int].0, MAX_SHORT_TEXT_BYTES as nat));
                let key = sanitize_short_string(members[i].0.as_str());
                assert(decreases_to!(*value => members@[i as int].1));
                let val = sanitize_json_value(&members[i].1);
                insert_json_member(&mut out, key, val);
                i = i + 1;
            }
            JsonValue::Object(out)
        },
        JsonValue::Array(items) => {
            let ghost ts = json_trees(items@);
            proof {
                lemma_json_trees_index(items@);
            }
            let n: usize = if items.len() < MAX_ARRAY_ITEMS {
                items.len()
            } else {
                MAX_ARRAY_ITEMS
            };
            proof {
                lemma_items_sanitizable(ts, n as nat);
            }
            let mut out: Vec<JsonValue> = Vec::new();
            let mut i: usize = 0;
            while i < n
                invariant
                    ts == json_trees(items@),
                    ts.len() == items@.len(),
                    n <= items@.len(),
                    i <= n,
                    json_trees(out@) == sanitized_items(ts, i as nat),
                    forall|j: int| 0 <= j < items@.len() ==> #[trigger] ts[j] == json_tree(items@[j]),
                    forall|j: int| 0 <= j < n ==> #[trigger] tree_sanitizable(ts[j]),
                decreases n - i,
            {
                assert(ts[i as int] == json_tree(items@[i as int]));
                assert(decreases_to!(*value => items@[i as int]));
                let val = sanitize_json_value(&items[i]);
                proof {
                    lemma_json_trees_push(out@, val);
                }
                out.push(val);
                i = i + 1;
            }
            JsonValue::Array(out)
        },
        JsonValue::Null => JsonValue::Null,
        JsonValue::Bool(b) => JsonValue::Bool(*b),
        JsonValue::Number(n) => JsonValue::Number(JsonNumber { repr: n.repr.clone() }),
    }
}

/// Whether sanitizing `value` cuts no text inside a character; answers
/// `tree_sanitizable` by cleaning each text that would be kept.
#[verifier::loop_isolation(false)]
pub fn json_sanitizable(value: &JsonValue) -> (r: bool)
    ensures
        r == tree_sanitizable(value@),
    decreases value,
{
    match value {
        JsonValue::String(s) => sanitize_within(s.as_str(), MAX_TEXT_BYTES).is_some(),
        JsonValue::Object(members) => {
            let ghost ms = json_members(members@);
            proof {
                lemma_json_members_index(members@);
            }
            let n: usize = if members.len() < MAX_OBJECT_MEMBERS {
                members.len()
            } else {
                MAX_OBJECT_MEMBERS
            };
            let mut i: usize = 0;
            while i < n
                invariant
                    ms == json_members(members@),
                    ms.len() == members@.len(),
                    n <= members@.len(),
                    i <= n,
                    members_sanitizable(ms, i as nat),
                    forall|j: int|
                        0 <= j < members@.len() ==> #[trigger] ms[j] == (
                            members@[j].0@,
                            json_tree(members@[j].1),
                        ),
                decreases n - i,
            {
                let key_ok = sanitize_within(members[i].0.as_str(), MAX_SHORT_TEXT_BYTES).is_some();
                assert(decreases_to!(*value => members@[i as int].1));
                if !key_ok || !json_sanitizable(&members[i].1) {
                    proof {
                        assert(!members_sanitizable(ms, (i + 1) as nat));
                        if members_sanitizable(ms, n as nat) {
                            lemma_members_prefix(ms, (i + 1) as nat, n as nat);
                        }
                    }
                    return false;
                }
                i = i + 1;
            }
            true
        },
        JsonValue::Array(items) => {
            let ghost ts = json_trees(items@);
            proof {
                lemma_json_trees_index(items@);
            }
            let n: usize = if items.len() < MAX_ARRAY_ITEMS {
                items.len()
            } else {
                MAX_ARRAY_ITEMS
            };
            let mut i: usize = 0;
            while i < n
                invariant
                    ts == json_trees(items@),
                    ts.len() == items@.len(),
                    n <= items@.len(),
                    i <= n,
                    items_sanitizable(ts, i as nat),
                    forall|j: int| 0 <= j < items@.len() ==> #[trigger] ts[j] == json_tree(items@[j]),
                decreases n - i,
            {
                assert(decreases_to!(*value => items@[i as int]));
                if !json_sanitizable(&items[i]) {
                    proof {
                        assert(!items_sanitizable(ts, (i + 1) as nat));
                        if items_sanitizable(ts, n as nat) {
                            lemma_items_prefix(ts, (i + 1) as nat, n as nat);
                        }
                    }
                    return false;
                }
                i = i + 1;
            }
            true
        },
        _ => true,
    }
}

proof fn lemma_items_prefix(items: Seq<JsonTree>, m: nat, n: nat)
    requires
        m <= n <= items.len(),
        items_sanitizable(items, n),
    ensures
        items_sanitizable(items, m),
    decreases n - m,
{
    if m < n {
        lemma_items_prefix(items, m, (n - 1) as nat);
    }
}

proof fn lemma_members_prefix(members: Seq<(Seq<char>, JsonTree)>, m: nat, n: nat)
    requires
        m <= n <= members.len(),
        members_sanitizable(members, n),
    ensures
        members_sanitizable(members, m),
    decreases n - m,
{
    if m < n {
        lemma_members_prefix(members, m, (n - 1) as nat);
    }
}

/// serde_json's document value.
#[verifier::external_type_specification]
#[verifier::external_body]
pub struct ExSerdeJsonValue(serde_json::Value);

/// What serde_json makes of a text: the document, or the text of the
/// error it reports.
pub uninterp spec fn json_document(text: Seq<char>) -> Result<JsonTree, Seq<char>>;

/// The text serde_json prints for a document.
pub uninterp spec fn json_rendering(doc: JsonTree) -> Seq<char>;

/// Converts serde_json's value into the library's, variant for variant;
/// numbers become their printed text.
#[verifier::external_body]
fn json_from_serde(value: serde_json::Value) -> JsonValue {
    match value {
        serde_json::Value::Null => JsonValue::Null,
        serde_json::Value::Bool(b) => JsonValue::Bool(b),
        serde_json::Value::Number(n) => JsonValue::Number(JsonNumber { repr: n.to_string() }),
        serde_json::Value::String(s) => JsonValue::String(s),
        serde_json::Value::Array(a) => JsonValue::Array(a.into_iter().map(json_from_serde).collect()),
        serde_json::Value::Object(m) => JsonValue::Object(
            m.into_iter().map(|(k, v)| (k, json_from_serde(v))).collect(),
        ),
    }
}

/// Converts the library's value into serde_json's, variant for variant;
/// a number is read back from its text (null where the text is no number).
#[verifier::external_body]
fn json_to_serde(value: &JsonValue) -> serde_json::Value {
    match value {
        JsonValue::Null => serde_json::Value::Null,
        JsonValue::Bool(b) => serde_json::Value::Bool(*b),
        JsonValue::Number(n) => serde_json::from_str::<serde_json::Number>(&n.repr).map(
            serde_json::Value::Number,
        ).unwrap_or(serde_json::Value::Null),
        JsonValue::String(s) => serde_json::Value::String(s.clone()),
        JsonValue::Array(a) => serde_json::Value::Array(a.iter().map(json_to_serde).collect()),
        JsonValue::Object(m) => serde_json::Value::Object(
            m.iter().map(|(k, v)| (k.clone(), json_to_serde(v))).collect(),
        ),
    }
}

/// Parses a JSON text through `serde_json::from_str::<serde_json::Value>`.
///
/// Trusted: the outcome depends on the text alone; which document or error
/// message comes back is named (`json_document`), not stated.
#[verifier::external_body]
pub(crate) fn parse_json(text: &str) -> (r: Result<JsonValue, String>)
    ensures
        match r {
            Ok(v) => json_document(text@) == Ok::<JsonTree, Seq<char>>(v@),
            Err(e) => json_document(text@) == Err::<JsonTree, Seq<char>>(e@),
        },
{
    match serde_json::from_str::<serde_json::Value>(text) {
        Ok(v) => Ok(json_from_serde(v)),
        Err(e) => Err(e.to_string()),
    }
}

/// Prints a document through `serde_json::to_string`, an empty text where
/// serde_json reports an error (`unwrap_or_default`).
///
/// Trusted: the text depends on the document alone; which text comes back
/// is named (`json_rendering`), not stated.
#[verifier::external_body]
pub(crate) fn render_json(value: &JsonValue) -> (r: String)
    ensures
        r@ == json_rendering(value@),
{
    serde_json::to_string(&json_to_serde(value)).unwrap_or_default()
}

} // verus!
