//! JSON documents as the model's replies carry them.
//!
//! `serde_json` reads the text. What it read is lifted into [`Json`], a tree
//! of plain values that the planner and the evaluator walk.

use serde_json::Value;
use vstd::prelude::*;
use vstd::string::*;

verus! {

broadcast use vstd::std_specs::vec::group_vec_axioms;

/// A JSON number.
#[derive(Debug)]
pub enum JsonNumber {
    /// An integer from zero up.
    Unsigned(u64),
    /// An integer below zero.
    Negative(i64),
    /// Any other number, by its text.
    Fraction(String),
}

/// A JSON document.
#[derive(Debug)]
pub enum Json {
    Null,
    Bool(bool),
    Number(JsonNumber),
    Text(String),
    Array(Vec<Json>),
    /// The members of an object. Where a name occurs twice, the later member
    /// counts.
    Object(Vec<Member>),
}

/// One member of a JSON object.
#[derive(Debug)]
pub struct Member {
    pub name: String,
    pub value: Json,
}

/// What a [`Json`] value stands for.
pub enum JsonTree {
    Null,
    Bool(bool),
    Integer(int),
    Fraction(Seq<char>),
    Text(Seq<char>),
    Array(Seq<JsonTree>),
    Object(Seq<MemberTree>),
}

/// What a [`Member`] stands for.
pub struct MemberTree {
    pub name: Seq<char>,
    pub value: JsonTree,
}

/// The member called `name` among `members`: the last one of that name.
pub open spec fn member(members: Seq<MemberTree>, name: Seq<char>) -> Option<JsonTree>
    decreases members.len(),
{
    if members.len() == 0 {
        None
    } else if members.last().name == name {
        Some(members.last().value)
    } else {
        member(members.drop_last(), name)
    }
}

impl JsonTree {
    /// The member called `name`, where this is an object that has one.
    pub open spec fn field(self, name: Seq<char>) -> Option<JsonTree> {
        match self {
            JsonTree::Object(members) => member(members, name),
            _ => None,
        }
    }

    /// The number, where this is an integer that a `u64` holds.
    pub open spec fn as_u64(self) -> Option<u64> {
        match self {
            JsonTree::Integer(n) => if 0 <= n <= u64::MAX {
                Some(n as u64)
            } else {
                None
            },
            _ => None,
        }
    }

    /// The text, where this is a string.
    pub open spec fn as_text(self) -> Option<Seq<char>> {
        match self {
            JsonTree::Text(text) => Some(text),
            _ => None,
        }
    }

    /// The items, where this is an array.
    pub open spec fn items(self) -> Option<Seq<JsonTree>> {
        match self {
            JsonTree::Array(items) => Some(items),
            _ => None,
        }
    }
}

impl View for JsonNumber {
    type V = JsonTree;

    open spec fn view(&self) -> JsonTree {
        match self {
            JsonNumber::Unsigned(n) => JsonTree::Integer(*n as int),
            JsonNumber::Negative(n) => JsonTree::Integer(*n as int),
            JsonNumber::Fraction(text) => JsonTree::Fraction(text@),
        }
    }
}

impl View for Json {
    type V = JsonTree;

    open spec fn view(&self) -> JsonTree
        decreases self,
    {
        match self {
            Json::Null => JsonTree::Null,
            Json::Bool(flag) => JsonTree::Bool(*flag),
            Json::Number(number) => number@,
            Json::Text(text) => JsonTree::Text(text@),
            Json::Array(items) => JsonTree::Array(
                Seq::new(
                    items.len() as nat,
                    |i: int|
                        if 0 <= i < items.len() {
                            items[i]@
                        } else {
                            JsonTree::Null
                        },
                ),
            ),
            Json::Object(members) => JsonTree::Object(
                Seq::new(
                    members.len() as nat,
                    |i: int|
                        if 0 <= i < members.len() {
                            MemberTree { name: members[i].name@, value: members[i].value@ }
                        } else {
                            MemberTree { name: Seq::empty(), value: JsonTree::Null }
                        },
                ),
            ),
        }
    }
}

/// `serde_json::Value`, the document as `serde_json` holds it.
#[verifier::external_type_specification]
#[verifier::external_body]
pub struct ExValue(Value);

/// What `serde_json::from_str` makes of a text: the document that it reads,
/// or the message of the error that it reports.
pub uninterp spec fn document(text: Seq<char>) -> Result<JsonTree, Seq<char>>;

/// The document that a `serde_json::Value` holds.
pub uninterp spec fn held(value: Value) -> JsonTree;

/// Calls `serde_json::from_str` for a `serde_json::Value`. The contract
/// claims that the outcome depends on the text alone, and names it: on
/// success the value holds `document(text)`, on failure the error's display
/// text is the message in `document(text)`.
#[verifier::external_body]
fn read_document(text: &str) -> (outcome: Result<Value, String>)
    ensures
        match outcome {
            Ok(value) => document(text@) == Ok::<JsonTree, Seq<char>>(held(value)),
            Err(message) => document(text@) == Err::<JsonTree, Seq<char>>(message@),
        },
{
    serde_json::from_str::<Value>(text).map_err(|error| error.to_string())
}

/// Moves a `serde_json::Value` into a [`Json`], variant by variant. A number
/// that `as_u64` gives is `Unsigned`, one that only `as_i64` gives is
/// `Negative`, any other is a `Fraction` with the number's display text.
/// The contract claims that the result stands for what the value holds.
#[verifier::external_body]
fn lift(value: Value) -> (json: Json)
    ensures
        json@ == held(value),
{
    match value {
        Value::Null => Json::Null,
        Value::Bool(flag) => Json::Bool(flag),
        Value::Number(n) => Json::Number(match (n.as_u64(), n.as_i64()) {
            (Some(u), _) => JsonNumber::Unsigned(u),
            (None, Some(i)) => JsonNumber::Negative(i),
            (None, None) => JsonNumber::Fraction(n.to_string()),
        }),
        Value::String(text) => Json::Text(text),
        Value::Array(items) => Json::Array(items.into_iter().map(lift).collect()),
        Value::Object(members) => Json::Object(
            members.into_iter().map(|(name, value)| Member { name, value: lift(value) }).collect(),
        ),
    }
}

/// Reads a JSON document. Fails with the reader's message where the text is
/// not one JSON value.
pub fn parse_json(text: &str) -> (outcome: Result<Json, String>)
    ensures
        match outcome {
            Ok(json) => document(text@) == Ok::<JsonTree, Seq<char>>(json@),
            Err(message) => document(text@) == Err::<JsonTree, Seq<char>>(message@),
        },
{
    match read_document(text) {
        Ok(value) => Ok(lift(value)),
        Err(message) => Err(message),
    }
}

impl Json {
    /// The member called `name`, where this is an object that has one.
    pub fn field(&self, name: &str) -> (found: Option<&Json>)
        ensures
            match found {
                Some(item) => self@.field(name@) == Some(item@),
                None => self@.field(name@) is None,
            },
    {
        match self {
            Json::Object(members) => {
                let ghost all = Seq::new(
                    members.len() as nat,
                    |i: int|
                        if 0 <= i < members.len() {
                            MemberTree { name: members[i].name@, value: members[i].value@ }
                        } else {
                            MemberTree { name: Seq::empty(), value: JsonTree::Null }
                        },
                );
                proof {
                    assert(self@->Object_0 =~= all);
                    assert(all.subrange(0, members.len() as int) =~= all);
                }
                let mut i: usize = members.len();
                while i > 0
                    invariant
                        i <= members.len(),
                        self@ == JsonTree::Object(all),
                        all.len() == members.len(),
                        forall|k: int|
                            0 <= k < members.len() ==> all[k] == (MemberTree {
                                name: #[trigger] members[k].name@,
                                value: members[k].value@,
                            }),
                        member(all, name@) == member(all.subrange(0, i as int), name@),
                    decreases i,
                {
                    i -= 1;
                    proof {
                        let upto = all.subrange(0, i + 1);
                        assert(upto.last() == all[i as int]);
                        assert(upto.drop_last() =~= all.subrange(0, i as int));
                        assert(members[i as int].name@ == all[i as int].name);
                    }
                    if crate::text::equal(members[i].name.as_str(), name) {
                        return Some(&members[i].value);
                    }
                }
                proof {
                    assert(all.subrange(0, 0).len() == 0);
                }
                None
            },
            _ => None,
        }
    }

    /// The number, where this is an integer that a `u64` holds.
    pub fn as_u64(&self) -> (number: Option<u64>)
        ensures
            number == self@.as_u64(),
    {
        match self {
            Json::Number(JsonNumber::Unsigned(n)) => Some(*n),
            Json::Number(JsonNumber::Negative(n)) => if *n >= 0 {
                Some(*n as u64)
            } else {
                None
            },
            _ => None,
        }
    }

    /// The text, where this is a string.
    pub fn as_text(&self) -> (text: Option<&String>)
        ensures
            match text {
                Some(text) => self@.as_text() == Some(text@),
                None => self@.as_text() is None,
            },
    {
        match self {
            Json::Text(text) => Some(text),
            _ => None,
        }
    }

    /// The items, where this is an array.
    pub fn items(&self) -> (items: Option<&Vec<Json>>)
        ensures
            match items {
                Some(items) => {
                    &&& self@.items() is Some
                    &&& self@.items()->0.len() == items.len()
                    &&& forall|i: int|
                        0 <= i < items.len() ==> self@.items()->0[i] == #[trigger] items[i]@
                },
                None => self@.items() is None,
            },
    {
        match self {
            Json::Array(items) => Some(items),
            _ => None,
        }
    }
}

} // verus!
