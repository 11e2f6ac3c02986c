//! Reading the JSON that a model's reply carries.

use vstd::prelude::*;
use vstd::string::*;
use crate::fence::{
    ends_at_fence, extract_payload, fence, law_first_fenced_block, law_unfenced_reply,
    lemma_ends_at_fence, opening, payload, plain, told_apart,
};
use crate::text::occurs_at;
use crate::json::{document, parse_json, Json, JsonTree};

verus! {

/// Why a reply could not be read.
#[derive(Debug)]
pub enum ReplyError {
    /// The payload is not JSON. Holds the reader's message.
    Syntax(String),
    /// The payload is JSON of another shape than the one asked for.
    Schema,
}

/// What a [`ReplyError`] stands for.
pub enum ReplyErrorView {
    Syntax(Seq<char>),
    Schema,
}

impl View for ReplyError {
    type V = ReplyErrorView;

    open spec fn view(&self) -> ReplyErrorView {
        match self {
            ReplyError::Syntax(message) => ReplyErrorView::Syntax(message@),
            ReplyError::Schema => ReplyErrorView::Schema,
        }
    }
}

impl ReplyErrorView {
    /// The error in words.
    pub open spec fn message(self) -> Seq<char> {
        match self {
            ReplyErrorView::Syntax(message) => message,
            ReplyErrorView::Schema => "reply does not have the expected JSON shape"@,
        }
    }
}

impl ReplyError {
    /// The error in words.
    pub fn message(&self) -> (text: String)
        ensures
            text@ == self@.message(),
    {
        match self {
            ReplyError::Syntax(message) => message.clone(),
            ReplyError::Schema => "reply does not have the expected JSON shape".to_owned(),
        }
    }
}

/// The document that a reply carries: what the reader makes of its payload.
pub open spec fn carried(reply: Seq<char>) -> Result<JsonTree, Seq<char>> {
    document(payload(reply))
}

/// A reply that wraps its JSON in a fenced block carries what the block's
/// contents carry when they come bare, whichever way the block opens and
/// whatever stands before the block and after it; and the bare contents
/// carry what their whole text reads as.
pub proof fn law_fence_is_transparent(
    before: Seq<char>,
    tagged: bool,
    body: Seq<char>,
    after: Seq<char>,
)
    requires
        ends_at_fence(before),
        ends_at_fence(body),
        told_apart(tagged, body),
    ensures
        carried(before + opening(tagged) + body + fence() + after) == carried(body),
        carried(body) == document(body),
{
    law_first_fenced_block(before, tagged, body, after);
    assert forall|k: int| 0 <= k implies !occurs_at(body, fence(), k) by {
        if occurs_at(body, fence(), k) {
            assert((body + fence()).subrange(k, k + 3) =~= body.subrange(k, k + 3));
            assert(occurs_at(body + fence(), fence(), k));
        }
    }
    law_unfenced_reply(body);
}

/// A reply that holds a fenced block between plain texts carries what the
/// block's contents read as: what stands before the block and after it,
/// later blocks among it, has no part in it.
pub proof fn law_first_block_alone(
    before: Seq<char>,
    tagged: bool,
    body: Seq<char>,
    after: Seq<char>,
)
    requires
        plain(before),
        plain(body),
        told_apart(tagged, body),
    ensures
        carried(before + opening(tagged) + body + fence() + after) == document(body),
{
    lemma_ends_at_fence(before);
    lemma_ends_at_fence(body);
    law_fence_is_transparent(before, tagged, body, after);
}

/// Reads the document that a reply carries.
pub fn read_reply(reply: &str) -> (outcome: Result<Json, String>)
    ensures
        match outcome {
            Ok(json) => carried(reply@) == Ok::<JsonTree, Seq<char>>(json@),
            Err(message) => carried(reply@) == Err::<JsonTree, Seq<char>>(message@),
        },
{
    let text = extract_payload(reply);
    parse_json(text.as_str())
}

/// The number, where the tree is an integer that a `u32` holds.
pub open spec fn as_u32(tree: JsonTree) -> Option<u32> {
    match tree.as_u64() {
        Some(n) => if n <= u32::MAX {
            Some(n as u32)
        } else {
            None
        },
        None => None,
    }
}

/// The number member called `name`, where the tree has one that a `u32` holds.
pub open spec fn number_field(tree: JsonTree, name: Seq<char>) -> Option<u32> {
    match tree.field(name) {
        Some(item) => as_u32(item),
        None => None,
    }
}

/// The string member called `name`, where the tree has one.
pub open spec fn text_field(tree: JsonTree, name: Seq<char>) -> Option<Seq<char>> {
    match tree.field(name) {
        Some(item) => item.as_text(),
        None => None,
    }
}

/// The number member called `name`, where there is one that a `u32` holds.
pub fn get_number(json: &Json, name: &str) -> (number: Option<u32>)
    ensures
        number == number_field(json@, name@),
{
    match json.field(name) {
        Some(item) => match item.as_u64() {
            Some(n) => if n <= u32::MAX as u64 {
                Some(n as u32)
            } else {
                None
            },
            None => None,
        },
        None => None,
    }
}

/// The string member called `name`, where there is one.
pub fn get_text(json: &Json, name: &str) -> (text: Option<String>)
    ensures
        match text {
            Some(text) => text_field(json@, name@) == Some(text@),
            None => text_field(json@, name@) is None,
        },
{
    match json.field(name) {
        Some(item) => match item.as_text() {
            Some(text) => Some(text.clone()),
            None => None,
        },
        None => None,
    }
}

} // verus!
