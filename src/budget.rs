//! Fitting a conversation into a model's input-token budget.
use vstd::prelude::*;
use crate::message::{Message, MessageView, is_system_role, views};
use crate::tokens::{chat_tokens, fits_within};

verus! {

/// The truncation pass from a cursor: while over budget, drop the first
/// removable message at or after the cursor; the cursor stays put after a
/// removal and passes over system messages.
pub open spec fn truncate_from(ms: Seq<MessageView>, cursor: int, limit: int) -> Seq<MessageView>
    decreases ms.len() - cursor,
{
    if chat_tokens(ms) <= limit || cursor < 0 || cursor >= ms.len() - 1 {
        ms
    } else if is_system_role(ms[cursor].role) {
        truncate_from(ms, cursor + 1, limit)
    } else {
        truncate_from(ms.remove(cursor), cursor, limit)
    }
}

/// The messages of `ms` whose role is `system`, in order.
pub open spec fn system_messages(ms: Seq<MessageView>) -> Seq<MessageView>
    decreases ms.len(),
{
    if ms.len() == 0 {
        ms
    } else if is_system_role(ms.last().role) {
        system_messages(ms.drop_last()).push(ms.last())
    } else {
        system_messages(ms.drop_last())
    }
}

pub proof fn lemma_system_messages_concat(a: Seq<MessageView>, b: Seq<MessageView>)
    ensures
        system_messages(a + b) == system_messages(a) + system_messages(b),
    decreases b.len(),
{
    if b.len() == 0 {
        assert(a + b =~= a);
        assert(system_messages(a) + system_messages(b) =~= system_messages(a));
    } else {
        assert((a + b).drop_last() =~= a + b.drop_last());
        assert((a + b).last() == b.last());
        lemma_system_messages_concat(a, b.drop_last());
        if is_system_role(b.last().role) {
            assert(system_messages(a) + system_messages(b.drop_last()).push(b.last()) =~= (
            system_messages(a) + system_messages(b.drop_last())).push(b.last()));
        }
    }
}

/// Dropping a non-system message keeps the system messages.
pub proof fn lemma_remove_keeps_system(ms: Seq<MessageView>, i: int)
    requires
        0 <= i < ms.len(),
        !is_system_role(ms[i].role),
    ensures
        system_messages(ms.remove(i)) == system_messages(ms),
{
    let a = ms.take(i);
    let b = ms.skip(i + 1);
    let one = seq![ms[i]];
    assert(ms.remove(i) =~= a + b);
    assert(ms =~= a + (one + b));
    lemma_system_messages_concat(a, b);
    lemma_system_messages_concat(a, one + b);
    lemma_system_messages_concat(one, b);
    assert(one.drop_last() =~= Seq::<MessageView>::empty());
    reveal_with_fuel(system_messages, 2);
    assert(system_messages(one) =~= Seq::<MessageView>::empty());
    assert(Seq::<MessageView>::empty() + system_messages(b) =~= system_messages(b));
}

/// What the truncation pass guarantees: it keeps every system message and
/// the final message, and it ends within budget unless only system messages
/// and the final one remain.
pub proof fn lemma_truncate_from(ms: Seq<MessageView>, cursor: int, limit: int)
    requires
        0 <= cursor,
        forall|i: int| 0 <= i < cursor && i < ms.len() - 1 ==> is_system_role(#[trigger] ms[i].role),
    ensures
        system_messages(truncate_from(ms, cursor, limit)) == system_messages(ms),
        ms.len() > 0 ==> truncate_from(ms, cursor, limit).len() > 0
            && truncate_from(ms, cursor, limit).last() == ms.last(),
        ms.len() == 0 ==> truncate_from(ms, cursor, limit).len() == 0,
        chat_tokens(truncate_from(ms, cursor, limit)) <= limit || forall|i: int|
            #![trigger truncate_from(ms, cursor, limit)[i]]
            0 <= i < truncate_from(ms, cursor, limit).len() - 1 ==> is_system_role(
                truncate_from(ms, cursor, limit)[i].role,
            ),
    decreases ms.len() - cursor,
{
    if chat_tokens(ms) <= limit || cursor >= ms.len() - 1 {
    } else if is_system_role(ms[cursor].role) {
        lemma_truncate_from(ms, cursor + 1, limit);
    } else {
        let next = ms.remove(cursor);
        assert forall|i: int| 0 <= i < cursor && i < next.len() - 1 implies is_system_role(
            #[trigger] next[i].role,
        ) by {
            assert(next[i] == ms[i]);
        }
        lemma_truncate_from(next, cursor, limit);
        lemma_remove_keeps_system(ms, cursor);
        assert(next.last() == ms.last());
    }
}

/// Drops the oldest removable messages until the conversation fits `limit`.
/// System messages and the final message are never dropped; if the budget
/// cannot be met that way, what remains is left as it is.
pub fn truncate_messages_if_needed(messages: &mut Vec<Message>, limit: usize)
    ensures
        views(final(messages)@) == truncate_from(views(old(messages)@), 0, limit as int),
        system_messages(views(final(messages)@)) == system_messages(views(old(messages)@)),
        old(messages)@.len() > 0 ==> final(messages)@.len() > 0 && final(messages)@.last()@
            == old(messages)@.last()@,
        chat_tokens(views(final(messages)@)) <= limit || forall|i: int|
            0 <= i < final(messages)@.len() - 1 ==> is_system_role(
                (#[trigger] final(messages)@[i])@.role,
            ),
{
    let ghost initial = views(messages@);
    proof {
        lemma_truncate_from(initial, 0, limit as int);
    }
    let mut cursor: usize = 0;
    while messages.len() > 0 && cursor < messages.len() - 1 && !fits_within(messages.as_slice(), limit)
        invariant
            cursor <= messages@.len(),
            truncate_from(views(messages@), cursor as int, limit as int) == truncate_from(
                initial,
                0,
                limit as int,
            ),
        decreases messages@.len() - cursor,
    {
        if messages[cursor].is_system() {
            cursor += 1;
        } else {
            let ghost before = views(messages@);
            messages.remove(cursor);
            assert(views(messages@) =~= before.remove(cursor as int));
        }
    }
    let ghost res = views(messages@);
    assert(truncate_from(res, cursor as int, limit as int) == res);
    proof {
        if initial.len() > 0 {
            assert(initial.last() == old(messages)@.last()@);
            assert(res.last() == messages@.last()@);
        }
        assert forall|i: int| 0 <= i < messages@.len() - 1 && !(chat_tokens(res) <= limit)
            implies is_system_role((#[trigger] messages@[i])@.role) by {
            assert(res[i] == messages@[i]@);
        }
    }
}

} // verus!
