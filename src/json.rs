//! A model of JSON documents that the verified code can read, and the
//! accessors that the output parsers use.

use vstd::prelude::*;
use crate::text::str_eq;

verus! {

#[verifier::external_type_specification]
#[verifier::external_body]
pub struct ExJsonValue(serde_json::Value);

/// A JSON number: the integer readings that the parsers use, and the
/// number's own text, which keeps any other number (a fraction) intact.
#[derive(Clone, Debug)]
pub struct JsonNumber {
    /// The number as an `i64`, when it is an integer in that range.
    pub as_i64: Option<i64>,
    /// The number as a `u64`, when it is a non-negative integer in that range.
    pub as_u64: Option<u64>,
    /// The number written out as serde_json writes it.
    pub text: String,
}

/// A parsed JSON document.
#[derive(Debug)]
pub enum JsonValue {
    Null,
    Bool(bool),
    Number(JsonNumber),
    Str(String),
    Array(Vec<JsonValue>),
    Object(Vec<(String, JsonValue)>),
}

/// What serde_json reads from a text: `None` when the text is not JSON.
pub uninterp spec fn json_document(text: Seq<char>) -> Option<JsonValue>;

impl JsonValue {
    /// Relies on the variants of serde_json::Value: each one is carried over
    /// to the variant of the same meaning, its fields moved; a number keeps
    /// what serde_json's `Number::as_i64`, `Number::as_u64` and its `Display`
    /// report. Only `parse_json_text` uses it, to convert what it parsed.
    #[verifier::external_body]
    fn from_serde(v: serde_json::Value) -> JsonValue {
        match v {
            serde_json::Value::Null => JsonValue::Null,
            serde_json::Value::Bool(b) => JsonValue::Bool(b),
            serde_json::Value::Number(n) => JsonValue::Number(
                JsonNumber { as_i64: n.as_i64(), as_u64: n.as_u64(), text: n.to_string() },
            ),
            serde_json::Value::String(s) => JsonValue::Str(s),
            serde_json::Value::Array(a) => JsonValue::Array(
                a.into_iter().map(JsonValue::from_serde).collect(),
            ),
            serde_json::Value::Object(m) => JsonValue::Object(
                m.into_iter().map(|(k, x)| (k, JsonValue::from_serde(x))).collect(),
            ),
        }
    }
}

/// Relies on serde_json::from_str::<serde_json::Value>: the document that a
/// text holds, or `None` when the text is not JSON; the result depends on the
/// text alone.
#[verifier::external_body]
pub fn parse_json_text(text: &str) -> (r: Option<JsonValue>)
    ensures
        r == json_document(text@),
{
    serde_json::from_str::<serde_json::Value>(text).ok().map(JsonValue::from_serde)
}

/// The value stored under `key` among `members` (the first one, if repeated).
pub open spec fn member(members: Seq<(String, JsonValue)>, key: Seq<char>) -> Option<JsonValue>
    decreases members.len(),
{
    if members.len() == 0 {
        None
    } else if members[0].0@ == key {
        Some(members[0].1)
    } else {
        member(members.drop_first(), key)
    }
}

/// The value of field `key` of an object; `None` for a missing field or a
/// value that is not an object.
pub open spec fn field(v: JsonValue, key: Seq<char>) -> Option<JsonValue> {
    match v {
        JsonValue::Object(members) => member(members@, key),
        _ => None,
    }
}

/// The text of field `key`, when it holds a string.
pub open spec fn str_field(v: JsonValue, key: Seq<char>) -> Option<Seq<char>> {
    match field(v, key) {
        Some(JsonValue::Str(s)) => Some(s@),
        _ => None,
    }
}

/// The text of field `key`, or the empty text when it holds no string.
pub open spec fn text_or_empty(v: JsonValue, key: Seq<char>) -> Seq<char> {
    match str_field(v, key) {
        Some(s) => s,
        None => Seq::empty(),
    }
}

/// Field `key` read as a `u64`.
pub open spec fn u64_field(v: JsonValue, key: Seq<char>) -> Option<u64> {
    match field(v, key) {
        Some(JsonValue::Number(n)) => n.as_u64,
        _ => None,
    }
}

/// Field `key` read as an `i64`.
pub open spec fn i64_field(v: JsonValue, key: Seq<char>) -> Option<i64> {
    match field(v, key) {
        Some(JsonValue::Number(n)) => n.as_i64,
        _ => None,
    }
}

/// The elements of field `key`, when it holds an array.
pub open spec fn array_field(v: JsonValue, key: Seq<char>) -> Option<Seq<JsonValue>> {
    match field(v, key) {
        Some(JsonValue::Array(items)) => Some(items@),
        _ => None,
    }
}

impl JsonValue {
    /// The value of field `key` of an object.
    pub fn get_field(&self, key: &str) -> (r: Option<&JsonValue>)
        ensures
            match r {
                Some(x) => field(*self, key@) == Some(*x),
                None => field(*self, key@).is_none(),
            },
    {
        match self {
            JsonValue::Object(members) => {
                let mut i: usize = 0;
                assert(members@.subrange(0, members@.len() as int) == members@);
                while i < members.len()
                    invariant
                        i <= members@.len(),
                        field(*self, key@) == member(members@, key@),
                        member(members@, key@) == member(members@.subrange(i as int, members@.len() as int), key@),
                    decreases members@.len() - i,
                {
                    let entry = &members[i];
                    assert(members@.subrange(i as int, members@.len() as int).drop_first()
                        == members@.subrange(i as int + 1, members@.len() as int));
                    if str_eq(entry.0.as_str(), key) {
                        let ghost sub = members@.subrange(i as int, members@.len() as int);
                        assert(sub[0] == members@[i as int]);
                        assert(*entry == members@[i as int]);
                        assert(sub[0].0@ == key@);
                        assert(member(sub, key@) == Some(sub[0].1));

                        return Some(&entry.1);
                    }
                    i = i + 1;
                }
                None
            },
            _ => None,
        }
    }

    /// The text of field `key`, when it holds a string.
    pub fn get_str(&self, key: &str) -> (r: Option<String>)
        ensures
            match r {
                Some(s) => str_field(*self, key@) == Some(s@),
                None => str_field(*self, key@).is_none(),
            },
    {
        match self.get_field(key) {
            Some(JsonValue::Str(s)) => Some(s.clone()),
            _ => None,
        }
    }

    /// The text of field `key`, or the empty text when it holds no string.
    pub fn get_text_or_empty(&self, key: &str) -> (r: String)
        ensures
            r@ == text_or_empty(*self, key@),
    {
        match self.get_str(key) {
            Some(s) => s,
            None => String::new(),
        }
    }

    /// Field `key` read as a `u64`.
    pub fn get_u64(&self, key: &str) -> (r: Option<u64>)
        ensures
            r == u64_field(*self, key@),
    {
        match self.get_field(key) {
            Some(JsonValue::Number(n)) => n.as_u64,
            _ => None,
        }
    }

    /// Field `key` read as an `i64`.
    pub fn get_i64(&self, key: &str) -> (r: Option<i64>)
        ensures
            r == i64_field(*self, key@),
    {
        match self.get_field(key) {
            Some(JsonValue::Number(n)) => n.as_i64,
            _ => None,
        }
    }

    /// The elements of field `key`, when it holds an array.
    pub fn get_array(&self, key: &str) -> (r: Option<&Vec<JsonValue>>)
        ensures
            match r {
                Some(a) => array_field(*self, key@) == Some(a@),
                None => array_field(*self, key@).is_none(),
            },
    {
        match self.get_field(key) {
            Some(JsonValue::Array(items)) => Some(items),
            _ => None,
        }
    }
}

/// The position of the first member named `key`.
pub open spec fn member_position(members: Seq<(String, JsonValue)>, key: Seq<char>) -> Option<int>
    decreases members.len(),
{
    if members.len() == 0 {
        None
    } else if members[0].0@ == key {
        Some(0)
    } else {
        match member_position(members.drop_first(), key) {
            Some(k) => Some(k + 1),
            None => None,
        }
    }
}

proof fn lemma_member_position(s: Seq<(String, JsonValue)>, key: Seq<char>, i: int)
    requires
        0 <= i <= s.len(),
        forall|j: int| 0 <= j < i ==> s[j].0@ != key,
    ensures
        i < s.len() && s[i].0@ == key ==> member_position(s, key) == Some(i),
        i == s.len() ==> member_position(s, key).is_none(),
    decreases i,
{
    if i > 0 {
        lemma_member_position(s.drop_first(), key, i - 1);
    }
}

/// The position of the first member named `key`.
pub fn find_member(members: &Vec<(String, JsonValue)>, key: &str) -> (r: Option<usize>)
    ensures
        match r {
            Some(i) => member_position(members@, key@) == Some(i as int) && i < members@.len() && members@[i as int].0@ == key@,
            None => member_position(members@, key@).is_none(),
        },
{
    let mut i: usize = 0;
    while i < members.len()
        invariant
            i <= members@.len(),
            forall|j: int| 0 <= j < i ==> members@[j].0@ != key@,
        decreases members@.len() - i,
    {
        if str_eq(members[i].0.as_str(), key) {
            proof {
                lemma_member_position(members@, key@, i as int);
            }
            return Some(i);
        }
        i = i + 1;
    }
    proof {
        lemma_member_position(members@, key@, i as int);
    }
    None
}

/// A JSON document as a mathematical value.
pub enum JsonTree {
    Null,
    Bool(bool),
    Number(Option<i64>, Option<u64>, Seq<char>),
    Str(Seq<char>),
    Array(Seq<JsonTree>),
    Object(Seq<(Seq<char>, JsonTree)>),
}

/// The mathematical value of a document.
pub open spec fn tree(v: JsonValue) -> JsonTree
    decreases v,
{
    match v {
        JsonValue::Null => JsonTree::Null,
        JsonValue::Bool(b) => JsonTree::Bool(b),
        JsonValue::Number(n) => JsonTree::Number(n.as_i64, n.as_u64, n.text@),
        JsonValue::Str(s) => JsonTree::Str(s@),
        JsonValue::Array(a) => JsonTree::Array(trees(a@)),
        JsonValue::Object(m) => JsonTree::Object(member_trees(m@)),
    }
}

/// The values of a sequence of documents.
pub open spec fn trees(s: Seq<JsonValue>) -> Seq<JsonTree>
    decreases s,
{
    if s.len() == 0 {
        Seq::empty()
    } else {
        trees(s.subrange(0, s.len() - 1)).push(tree(s[s.len() - 1]))
    }
}

/// The values of the members of an object.
pub open spec fn member_trees(s: Seq<(String, JsonValue)>) -> Seq<(Seq<char>, JsonTree)>
    decreases s,
{
    if s.len() == 0 {
        Seq::empty()
    } else {
        member_trees(s.subrange(0, s.len() - 1)).push((s[s.len() - 1].0@, tree(s[s.len() - 1].1)))
    }
}

/// The position of the first member named `key`.
pub open spec fn tree_member_position(s: Seq<(Seq<char>, JsonTree)>, key: Seq<char>) -> Option<int>
    decreases s.len(),
{
    if s.len() == 0 {
        None
    } else if s[0].0 == key {
        Some(0)
    } else {
        match tree_member_position(s.drop_first(), key) {
            Some(k) => Some(k + 1),
            None => None,
        }
    }
}

/// `user` laid over `default`: two objects merge member by member, each
/// member of the user's laid in turn over the default's; any other user value
/// (an array too) replaces the default one.
pub open spec fn merged_tree(default: JsonTree, user: JsonTree) -> JsonTree
    decreases user,
{
    match user {
        JsonTree::Object(um) => match default {
            JsonTree::Object(dm) => JsonTree::Object(lay_all(dm, um)),
            _ => user,
        },
        _ => user,
    }
}

/// `dm` with each member of `um` laid over it in turn.
pub open spec fn lay_all(dm: Seq<(Seq<char>, JsonTree)>, um: Seq<(Seq<char>, JsonTree)>) -> Seq<(Seq<char>, JsonTree)>
    decreases um,
{
    if um.len() == 0 {
        dm
    } else {
        lay(lay_all(dm, um.subrange(0, um.len() - 1)), um[um.len() - 1])
    }
}

/// `m` with member `e` laid over it: a member of the same name takes the
/// merge of its value and `e`'s, else `e` is added at the end.
pub open spec fn lay(m: Seq<(Seq<char>, JsonTree)>, e: (Seq<char>, JsonTree)) -> Seq<(Seq<char>, JsonTree)>
    decreases e,
{
    match tree_member_position(m, e.0) {
        Some(i) => if 0 <= i < m.len() {
            m.update(i, (e.0, merged_tree(m[i].1, e.1)))
        } else {
            m
        },
        None => m.push(e),
    }
}

proof fn lemma_member_trees_len(s: Seq<(String, JsonValue)>)
    ensures
        member_trees(s).len() == s.len(),
        forall|i: int| 0 <= i < s.len() ==> #[trigger] member_trees(s)[i] == (s[i].0@, tree(s[i].1)),
    decreases s.len(),
{
    if s.len() > 0 {
        lemma_member_trees_len(s.subrange(0, s.len() - 1));
    }
}

proof fn lemma_member_trees_eq(a: Seq<(String, JsonValue)>, b: Seq<(Seq<char>, JsonTree)>)
    requires
        a.len() == b.len(),
        forall|i: int| 0 <= i < a.len() ==> #[trigger] b[i] == (a[i].0@, tree(a[i].1)),
    ensures
        member_trees(a) == b,
{
    lemma_member_trees_len(a);
    assert(member_trees(a) =~= b);
}

proof fn lemma_tree_position(s: Seq<(Seq<char>, JsonTree)>, key: Seq<char>, i: int)
    requires
        0 <= i <= s.len(),
        forall|j: int| 0 <= j < i ==> s[j].0 != key,
    ensures
        i < s.len() && s[i].0 == key ==> tree_member_position(s, key) == Some(i),
        i == s.len() ==> tree_member_position(s, key).is_none(),
    decreases i,
{
    if i > 0 {
        lemma_tree_position(s.drop_first(), key, i - 1);
    }
}

/// Lays `user` over `default`: two objects merge member by member, the
/// user's members winning, recursively; any other user value replaces the
/// default one.
pub fn merge_json_values(default: JsonValue, user: JsonValue) -> (r: JsonValue)
    ensures
        tree(r) == merged_tree(tree(default), tree(user)),
    decreases user,
{
    match user {
        JsonValue::Object(um) => match default {
            JsonValue::Object(dm) => {
                let ghost all = um@;
                let ghost base = member_trees(dm@);
                let n = um.len();
                let mut rest = um;
                let mut out = dm;
                let mut k: usize = 0;
                proof {
                    lemma_member_trees_len(all);
                }
                while k < n
                    invariant
                        n == all.len(),
                        k <= n,
                        rest@ == all.subrange(k as int, n as int),
                        member_trees(out@) == lay_all(base, member_trees(all.subrange(0, k as int))),
                        decreases_to!(user => all),
                    decreases n - k,
                {
                    let ghost before = out@;
                    let e = rest.remove(0);
                    assert(e == all[k as int]);
                    assert(rest@ == all.subrange(k as int + 1, n as int));
                    proof {
                        let p = all.subrange(0, k as int + 1);
                        assert(p.subrange(0, p.len() - 1) == all.subrange(0, k as int));
                        lemma_member_trees_len(p);
                        assert(member_trees(p).subrange(0, member_trees(p).len() - 1) == member_trees(all.subrange(0, k as int)));
                        assert(member_trees(p)[member_trees(p).len() - 1] == (e.0@, tree(e.1)));
                        lemma_member_trees_len(before);
                    }
                    let ghost p = all.subrange(0, k as int + 1);
                    let ghost mt = member_trees(before);
                    let (key, uv) = e;
                    proof {
                        assert(lay_all(base, member_trees(p)) == lay(mt, (key@, tree(uv))));
                    }
                    match find_member(&out, key.as_str()) {
                        Some(i) => {
                            proof {
                                lemma_member_position_trees(before, key@);
                            }
                            let old_member = out.remove(i);
                            assert(old_member == before[i as int]);
                            assert(decreases_to!(user => uv)) by {
                                assert(decreases_to!(all => all[k as int]));
                                assert(decreases_to!(all[k as int] => all[k as int].1));
                            }
                            let merged = merge_json_values(old_member.1, uv);
                            out.insert(i, (old_member.0, merged));
                            proof {
                                assert(out@ == before.update(i as int, (before[i as int].0, merged)));
                                assert(mt[i as int].1 == tree(before[i as int].1));
                                lemma_member_trees_eq(out@, mt.update(i as int, (key@, merged_tree(mt[i as int].1, tree(uv)))));
                            }
                        },
                        None => {
                            proof {
                                lemma_member_position_trees(before, key@);
                            }
                            out.push((key, uv));
                            proof {
                                lemma_member_trees_eq(out@, mt.push((key@, tree(uv))));
                            }
                        },
                    }
                    assert(member_trees(out@) == lay_all(base, member_trees(p)));
                    k = k + 1;
                }
                assert(all.subrange(0, n as int) == all);
                JsonValue::Object(out)
            },
            _ => JsonValue::Object(um),
        },
        other => other,
    }
}

proof fn lemma_member_position_trees(s: Seq<(String, JsonValue)>, key: Seq<char>)
    ensures
        member_position(s, key) == tree_member_position(member_trees(s), key),
    decreases s.len(),
{
    lemma_member_trees_len(s);
    if s.len() > 0 {
        lemma_member_position_trees(s.drop_first(), key);
        lemma_member_trees_len(s.drop_first());
        assert(member_trees(s.drop_first()) =~= member_trees(s).drop_first());
    }
}

} // verus!
