//! Reducing a model's reply to the JSON text it carries.
//!
//! A reply may wrap its JSON in a fenced code block. A block opens with the
//! fence, three backquotes; the word `json` directly behind the fence
//! belongs to the opening. The payload of a reply is what follows its first
//! opening, up to the next fence, or up to the end of the reply where the
//! block is never closed. Further blocks in the same reply are not looked
//! at. A reply without a fence is its own payload.

use vstd::prelude::*;
use vstd::string::*;
use crate::text::{
    chars_of, find, first_occurrence, lemma_first_occurrence, lemma_first_occurrence_is,
    matches_at, occurs_at,
};

verus! {

/// The fence: it opens a block and closes it.
pub open spec fn fence() -> Seq<char> {
    seq!['`', '`', '`']
}

/// The word that may stand directly behind an opening fence.
pub open spec fn tag() -> Seq<char> {
    seq!['j', 's', 'o', 'n']
}

/// The opening of a block, with the word behind the fence or without it.
pub open spec fn opening(tagged: bool) -> Seq<char> {
    if tagged {
        fence() + tag()
    } else {
        fence()
    }
}

/// Where the contents of a block begin whose fence stands at `at`: behind
/// the fence, and behind the word where it follows the fence directly.
pub open spec fn contents_start(reply: Seq<char>, at: int) -> int {
    if occurs_at(reply, tag(), at + fence().len()) {
        at + fence().len() + tag().len()
    } else {
        at + fence().len()
    }
}

/// The payload of a reply.
pub open spec fn payload(reply: Seq<char>) -> Seq<char> {
    match first_occurrence(reply, fence(), 0) {
        None => reply,
        Some(at) => {
            let start = contents_start(reply, at);
            match first_occurrence(reply, fence(), start) {
                Some(end) => reply.subrange(start, end),
                None => reply.subrange(start, reply.len() as int),
            }
        },
    }
}

/// Whether `marker` stands nowhere in `text`.
pub open spec fn free_of(text: Seq<char>, marker: Seq<char>) -> bool {
    forall|k: int| 0 <= k ==> !occurs_at(text, marker, k)
}

/// Whether no fence begins inside `text` when a fence follows it: the text
/// holds no fence, and none is made up of its last characters and the
/// first ones of the fence that follows.
pub open spec fn ends_at_fence(text: Seq<char>) -> bool {
    forall|k: int| 0 <= k < text.len() ==> !occurs_at(text + fence(), fence(), k)
}

/// Whether the contents of a block can be told from its opening: behind a
/// fence without the word, the contents do not begin with the word.
pub open spec fn told_apart(tagged: bool, body: Seq<char>) -> bool {
    tagged || !occurs_at(body, tag(), 0)
}

/// The payload of a reply.
pub fn extract_payload(reply: &str) -> (text: String)
    ensures
        text@ == payload(reply@),
{
    proof {
        reveal_strlit("```");
        reveal_strlit("json");
        assert("```"@ =~= fence());
        assert("json"@ =~= tag());
    }
    let chars = chars_of(reply);
    let marker = chars_of("```");
    let word = chars_of("json");
    let length: usize = chars.len();
    match find(&chars, &marker, 0) {
        None => reply.to_owned(),
        Some(at) => {
            proof {
                lemma_first_occurrence(chars@, marker@, 0);
                assert(occurs_at(chars@, marker@, at as int));
            }
            let behind: usize = at + marker.len();
            let start: usize = if length - behind >= word.len() && matches_at(
                &chars,
                &word,
                behind,
            ) {
                behind + word.len()
            } else {
                behind
            };
            match find(&chars, &marker, start) {
                Some(end) => {
                    proof {
                        lemma_first_occurrence(chars@, marker@, start as int);
                    }
                    reply.substring_char(start, end).to_owned()
                },
                None => reply.substring_char(start, length).to_owned(),
            }
        },
    }
}

/// Whether a text holds no fence and does not end in a backquote.
pub open spec fn plain(text: Seq<char>) -> bool {
    free_of(text, fence()) && (text.len() == 0 || text.last() != '`')
}

/// A text that holds no fence and does not end in a backquote ends at the
/// fence that follows it.
pub proof fn lemma_ends_at_fence(text: Seq<char>)
    requires
        plain(text),
    ensures
        ends_at_fence(text),
{
    assert forall|k: int| 0 <= k < text.len() implies !occurs_at(text + fence(), fence(), k) by {
        let whole = text + fence();
        if occurs_at(whole, fence(), k) {
            if k + 3 <= text.len() {
                assert(text.subrange(k, k + 3) =~= whole.subrange(k, k + 3));
                assert(occurs_at(text, fence(), k));
            } else {
                let last = text.len() - 1;
                assert(whole.subrange(k, k + 3)[last - k] == whole[last]);
                assert(whole[last] == text.last());
            }
        }
    }
}

/// In a reply that holds a block, the block's fence is the first fence of
/// the reply, and the block's contents begin behind its opening. `rest` is
/// what follows the contents: nothing, or the closing fence and more.
proof fn lemma_block_opens(before: Seq<char>, tagged: bool, body: Seq<char>, rest: Seq<char>)
    requires
        ends_at_fence(before),
        told_apart(tagged, body),
        rest.len() == 0 || rest[0] == '`',
    ensures
        first_occurrence(before + opening(tagged) + body + rest, fence(), 0) == Some(
            before.len() as int,
        ),
        contents_start(before + opening(tagged) + body + rest, before.len() as int)
            == before.len() + opening(tagged).len(),
{
    let reply = before + opening(tagged) + body + rest;
    let at = before.len() as int;
    assert(reply.subrange(at, at + 3) =~= fence());
    assert forall|k: int| 0 <= k < at implies !occurs_at(reply, fence(), k) by {
        if occurs_at(reply, fence(), k) {
            assert((before + fence()).subrange(k, k + 3) =~= reply.subrange(k, k + 3));
            assert(occurs_at(before + fence(), fence(), k));
        }
    }
    lemma_first_occurrence_is(reply, fence(), 0, at);
    if tagged {
        assert(reply.subrange(at + 3, at + 7) =~= tag());
    } else if occurs_at(reply, tag(), at + 3) {
        let word = reply.subrange(at + 3, at + 7);
        if body.len() >= 4 {
            assert(body.subrange(0, 4) =~= word);
            assert(occurs_at(body, tag(), 0));
        } else {
            let n = body.len() as int;
            assert(word[n] == reply[at + 3 + n]);
            assert(reply[at + 3 + n] == rest[0]);
        }
    }
}

/// A reply without a fence is its own payload.
pub proof fn law_unfenced_reply(reply: Seq<char>)
    requires
        free_of(reply, fence()),
    ensures
        payload(reply) == reply,
{
    lemma_first_occurrence(reply, fence(), 0);
}

/// The payload of a reply that holds a fenced block is the contents of its
/// first block, whether the block opens with the bare fence or with the
/// fence and the word, and whatever stands before the block and after it.
///
/// `before` is what precedes the block and `body` is what the block holds,
/// so no fence begins inside either.
pub proof fn law_first_fenced_block(
    before: Seq<char>,
    tagged: bool,
    body: Seq<char>,
    after: Seq<char>,
)
    requires
        ends_at_fence(before),
        ends_at_fence(body),
        told_apart(tagged, body),
    ensures
        payload(before + opening(tagged) + body + fence() + after) == body,
{
    let reply = before + opening(tagged) + body + fence() + after;
    let start = (before.len() + opening(tagged).len()) as int;
    let end = start + body.len();
    assert(reply =~= before + opening(tagged) + body + (fence() + after));
    lemma_block_opens(before, tagged, body, fence() + after);
    assert(reply.subrange(end, end + 3) =~= fence());
    assert forall|k: int| start <= k < end implies !occurs_at(reply, fence(), k) by {
        if occurs_at(reply, fence(), k) {
            let j = k - start;
            assert((body + fence()).subrange(j, j + 3) =~= reply.subrange(k, k + 3));
            assert(occurs_at(body + fence(), fence(), j));
        }
    }
    lemma_first_occurrence_is(reply, fence(), start, end);
    assert(reply.subrange(start, end) =~= body);
}

/// Where a block is opened and never closed, the payload is all that
/// follows the opening.
pub proof fn law_unclosed_block(before: Seq<char>, tagged: bool, body: Seq<char>)
    requires
        ends_at_fence(before),
        free_of(body, fence()),
        told_apart(tagged, body),
    ensures
        payload(before + opening(tagged) + body) == body,
{
    let reply = before + opening(tagged) + body;
    let start = (before.len() + opening(tagged).len()) as int;
    assert(reply =~= before + opening(tagged) + body + Seq::<char>::empty());
    lemma_block_opens(before, tagged, body, Seq::empty());
    lemma_first_occurrence(reply, fence(), start);
    assert forall|k: int| start <= k implies !occurs_at(reply, fence(), k) by {
        if occurs_at(reply, fence(), k) {
            let j = k - start;
            assert(body.subrange(j, j + 3) =~= reply.subrange(k, k + 3));
            assert(occurs_at(body, fence(), j));
        }
    }
    assert(reply.subrange(start, reply.len() as int) =~= body);
}

} // verus!
