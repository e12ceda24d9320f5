//! Token accounting for chat messages under the `o200k_base` vocabulary.
use vstd::prelude::*;
use crate::message::{Message, MessageView, views};

verus! {

/// Framing overhead of one message.
pub const MESSAGE_OVERHEAD: usize = 4;

/// Reply priming added once per conversation.
pub const REPLY_PRIMING: usize = 3;

/// Number of `o200k_base` tokens of a text, special tokens allowed.
pub uninterp spec fn o200k_token_count(s: Seq<char>) -> nat;

/// Relies on tiktoken_rs::o200k_base_singleton and CoreBPE::encode_with_special_tokens:
/// the token count of a text under the shared o200k_base encoder.
#[verifier::external_body]
fn bpe_token_count(text: &str) -> (r: usize)
    ensures
        r as nat == o200k_token_count(text@),
{
    tiktoken_rs::o200k_base_singleton().lock().encode_with_special_tokens(text).len()
}

/// `x`, saturated at the largest `usize`.
pub open spec fn capped(x: int) -> int {
    if x > usize::MAX {
        usize::MAX as int
    } else {
        x
    }
}

/// Token cost of one message: framing overhead, role and content.
pub open spec fn message_tokens(m: MessageView) -> int {
    MESSAGE_OVERHEAD + o200k_token_count(m.role) + o200k_token_count(m.content)
}

/// Sum of the token costs of the messages.
pub open spec fn messages_tokens(ms: Seq<MessageView>) -> int
    decreases ms.len(),
{
    if ms.len() == 0 {
        0
    } else {
        messages_tokens(ms.drop_last()) + message_tokens(ms.last())
    }
}

/// Token cost of a whole conversation, reply priming included.
pub open spec fn chat_tokens(ms: Seq<MessageView>) -> int {
    messages_tokens(ms) + REPLY_PRIMING
}

pub proof fn lemma_messages_tokens_nonneg(ms: Seq<MessageView>)
    ensures
        messages_tokens(ms) >= 0,
    decreases ms.len(),
{
    if ms.len() > 0 {
        lemma_messages_tokens_nonneg(ms.drop_last());
    }
}

/// Token cost of a single message (saturating at the largest `usize`).
pub fn count_single_message_tokens(message: &Message) -> (r: usize)
    ensures
        r == capped(message_tokens(message@)),
{
    let role = bpe_token_count(message.role.as_str());
    let content = bpe_token_count(message.content.as_str());
    MESSAGE_OVERHEAD.saturating_add(role).saturating_add(content)
}

/// Token cost of a conversation (saturating at the largest `usize`).
pub fn count_chat_tokens(messages: &[Message]) -> (r: usize)
    ensures
        r == capped(chat_tokens(views(messages@))),
{
    let mut total: usize = 0;
    let mut i: usize = 0;
    while i < messages.len()
        invariant
            i <= messages@.len(),
            total == capped(messages_tokens(views(messages@.take(i as int)))),
        decreases messages@.len() - i,
    {
        let c = count_single_message_tokens(&messages[i]);
        proof {
            let pre = views(messages@.take(i as int));
            let next = views(messages@.take(i as int + 1));
            assert(next.drop_last() =~= pre);
            assert(next.last() == messages@[i as int]@);
            lemma_messages_tokens_nonneg(pre);
        }
        total = total.saturating_add(c);
        i += 1;
    }
    assert(messages@.take(messages@.len() as int) =~= messages@);
    proof {
        lemma_messages_tokens_nonneg(views(messages@));
    }
    total.saturating_add(REPLY_PRIMING)
}

/// Whether the conversation costs at most `limit` tokens.
pub fn fits_within(messages: &[Message], limit: usize) -> (r: bool)
    ensures
        r == (chat_tokens(views(messages@)) <= limit),
{
    proof {
        lemma_messages_tokens_nonneg(views(messages@));
    }
    if limit < REPLY_PRIMING {
        return false;
    }
    let budget = limit - REPLY_PRIMING;
    let mut total: usize = 0;
    let mut i: usize = 0;
    while i < messages.len()
        invariant
            i <= messages@.len(),
            budget == limit - REPLY_PRIMING,
            total <= budget,
            total == messages_tokens(views(messages@.take(i as int))),
        decreases messages@.len() - i,
    {
        let c = count_single_message_tokens(&messages[i]);
        proof {
            let pre = views(messages@.take(i as int));
            let next = views(messages@.take(i as int + 1));
            assert(next.drop_last() =~= pre);
            assert(next.last() == messages@[i as int]@);
            assert(messages_tokens(next) == messages_tokens(pre) + message_tokens(
                messages@[i as int]@,
            ));
        }
        if c > budget - total {
            proof {
                assert(views(messages@).take(i as int + 1) =~= views(messages@.take(i as int + 1)));
                lemma_prefix_tokens_bound(views(messages@), i as int + 1);
            }
            return false;
        }
        total = total + c;
        i += 1;
    }
    assert(messages@.take(messages@.len() as int) =~= messages@);
    true
}

/// A prefix never costs more than the whole list.
pub proof fn lemma_prefix_tokens_bound(ms: Seq<MessageView>, k: int)
    requires
        0 <= k <= ms.len(),
    ensures
        messages_tokens(ms.take(k)) <= messages_tokens(ms),
    decreases ms.len(),
{
    if k < ms.len() {
        assert(ms.drop_last().take(k) =~= ms.take(k));
        lemma_prefix_tokens_bound(ms.drop_last(), k);
    } else {
        assert(ms.take(k) =~= ms);
    }
}

} // verus!
