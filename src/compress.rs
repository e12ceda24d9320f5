//! Folding a leading run of system messages into one system prompt.
use vstd::prelude::*;
use crate::message::{Message, MessageView, is_system_role, is_text, views};

verus! {

/// A message as one line of folded context, headed by its role.
pub open spec fn labelled_line(m: MessageView) -> Seq<char> {
    if m.role == "user"@ {
        "User: "@ + m.content
    } else if m.role == "assistant"@ {
        "Assistant: "@ + m.content
    } else if m.role == "system"@ {
        "System Note: "@ + m.content
    } else {
        m.role + ": "@ + m.content
    }
}

/// Renders a message as a labelled line (`User: ...`, `System Note: ...`).
pub fn message_to_string(msg: &Message) -> (r: String)
    ensures
        r@ == labelled_line(msg@),
{
    let head = if is_text(&msg.role, "user") {
        "User: ".to_string()
    } else if is_text(&msg.role, "assistant") {
        "Assistant: ".to_string()
    } else if is_text(&msg.role, "system") {
        "System Note: ".to_string()
    } else {
        msg.role.clone().concat(": ")
    };
    head.concat(msg.content.as_str())
}

/// Index of the last system message, or -1 when there is none.
pub open spec fn last_system_index(ms: Seq<MessageView>) -> int
    decreases ms.len(),
{
    if ms.len() == 0 {
        -1
    } else if is_system_role(ms.last().role) {
        ms.len() - 1
    } else {
        last_system_index(ms.drop_last())
    }
}

/// Content of the first message with the lines of messages `1..=k` appended,
/// each on a new line.
pub open spec fn folded_content(ms: Seq<MessageView>, k: int) -> Seq<char>
    decreases k,
{
    if k <= 0 {
        ms[0].content
    } else {
        folded_content(ms, k - 1) + "\n"@ + labelled_line(ms[k])
    }
}

/// Whether the list opens with a system message and holds another one.
pub open spec fn compressible(ms: Seq<MessageView>) -> bool {
    ms.len() > 0 && is_system_role(ms[0].role) && last_system_index(ms) > 0
}

/// The compressed list: messages `0..=last system` folded into the first,
/// the rest kept; other lists unchanged.
pub open spec fn compressed(ms: Seq<MessageView>) -> Seq<MessageView> {
    if compressible(ms) {
        let last = last_system_index(ms);
        seq![MessageView { role: ms[0].role, content: folded_content(ms, last) }] + ms.subrange(
            last + 1,
            ms.len() as int,
        )
    } else {
        ms
    }
}

pub proof fn lemma_last_system_index(ms: Seq<MessageView>)
    ensures
        -1 <= last_system_index(ms) < ms.len(),
        last_system_index(ms) >= 0 ==> is_system_role(ms[last_system_index(ms)].role),
        forall|i: int|
            last_system_index(ms) < i < ms.len() ==> !is_system_role(#[trigger] ms[i].role),
    decreases ms.len(),
{
    if ms.len() > 0 && !is_system_role(ms.last().role) {
        lemma_last_system_index(ms.drop_last());
        assert forall|i: int| last_system_index(ms) < i < ms.len() implies !is_system_role(
            #[trigger] ms[i].role,
        ) by {
            if i < ms.len() - 1 {
                assert(ms[i] == ms.drop_last()[i]);
            }
        }
    }
}

/// A list whose system messages all stand before `k` has its last one there.
pub proof fn lemma_no_system_after(ms: Seq<MessageView>, k: int)
    requires
        0 <= k < ms.len(),
        is_system_role(ms[k].role),
        forall|i: int| k < i < ms.len() ==> !is_system_role(#[trigger] ms[i].role),
    ensures
        last_system_index(ms) == k,
    decreases ms.len(),
{
    if ms.len() - 1 > k {
        assert forall|i: int| k < i < ms.drop_last().len() implies !is_system_role(
            #[trigger] ms.drop_last()[i].role,
        ) by {
            assert(ms.drop_last()[i] == ms[i]);
        }
        lemma_no_system_after(ms.drop_last(), k);
    }
}

/// Compressing twice is compressing once.
pub proof fn lemma_compress_idempotent(ms: Seq<MessageView>)
    ensures
        compressed(compressed(ms)) == compressed(ms),
{
    if compressible(ms) {
        lemma_last_system_index(ms);
        let c = compressed(ms);
        let last = last_system_index(ms);
        assert forall|i: int| 0 < i < c.len() implies !is_system_role(#[trigger] c[i].role) by {
            assert(c[i] == ms[last + i]);
        }
        lemma_no_system_after(c, 0);
    }
}

/// Folds every message from the first through the last system message into
/// the leading system message, when the list opens with one and holds
/// another; otherwise returns the list unchanged.
pub fn compress_system_context(messages: &Vec<Message>) -> (r: Vec<Message>)
    ensures
        views(r@) == compressed(views(messages@)),
{
    let ghost ms = views(messages@);
    let n = messages.len();
    let mut last: Option<usize> = None;
    let mut i: usize = 0;
    while i < n
        invariant
            n == messages@.len(),
            i <= n,
            ms == views(messages@),
            match last {
                Some(l) => l as int == last_system_index(ms.take(i as int)),
                None => last_system_index(ms.take(i as int)) == -1,
            },
        decreases n - i,
    {
        proof {
            assert(ms.take(i as int + 1).drop_last() =~= ms.take(i as int));
        }
        if messages[i].is_system() {
            last = Some(i);
        }
        i += 1;
    }
    assert(ms.take(n as int) =~= ms);
    proof {
        lemma_last_system_index(ms);
    }
    if n == 0 || !messages[0].is_system() {
        return crate::message::clone_messages(messages);
    }
    let last = match last {
        Some(l) => l,
        None => 0,
    };
    if last == 0 {
        return crate::message::clone_messages(messages);
    }
    let mut head = messages[0].clone();
    assert(ms[0] == messages@[0]@);
    let mut k: usize = 1;
    while k <= last
        invariant
            1 <= k <= last + 1,
            last < n,
            n == messages@.len(),
            ms == views(messages@),
            head@.role == ms[0].role,
            head@.content == folded_content(ms, k - 1),
        decreases last + 1 - k,
    {
        let line = message_to_string(&messages[k]);
        assert(ms[k as int] == messages@[k as int]@);
        head.content.append("\n");
        head.content.append(line.as_str());
        k += 1;
    }
    let mut out: Vec<Message> = vec![head];
    let mut j: usize = last + 1;
    while j < n
        invariant
            last < j <= n,
            n == messages@.len(),
            ms == views(messages@),
            out@.len() == j - last,
            out@[0]@ == (MessageView { role: ms[0].role, content: folded_content(ms, last as int) }),
            forall|t: int| 1 <= t < out@.len() ==> (#[trigger] out@[t])@ == ms[last + t],
        decreases n - j,
    {
        assert(ms[j as int] == messages@[j as int]@);
        out.push(messages[j].clone());
        j += 1;
    }
    assert(views(out@) =~= compressed(ms));
    out
}

} // verus!
