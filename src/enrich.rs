//! Injecting retrieved history into an outgoing chat request.
use vstd::prelude::*;
use crate::message::{ChatRequest, Message, MessageView, is_system_role, is_user_role, views};
use crate::node::{MessageNode, node_message};

verus! {

/// Header of the semantic-search part of the enrichment block.
pub const SEMANTIC_HEADER: &'static str = "The following is the result of a semantic search \n        of the most related messages by cosine similarity to previous \n        conversations";

/// Header of the recency part of the enrichment block.
pub const RECENT_HEADER: &'static str = "The following are the most recent messages in the \n        conversation in chronological order";

/// Where `recent` has its first node later than `t`, scanning from the end:
/// after every node stamped at or before `t`.
pub open spec fn insert_pos(s: Seq<MessageNode>, t: i64) -> int
    decreases s.len(),
{
    if s.len() == 0 || s.last().timestamp <= t {
        s.len() as int
    } else {
        insert_pos(s.drop_last(), t)
    }
}

/// The nodes in ascending timestamp order; nodes with equal stamps keep
/// their relative order.
pub open spec fn sort_by_time(s: Seq<MessageNode>) -> Seq<MessageNode>
    decreases s.len(),
{
    if s.len() == 0 {
        s
    } else {
        let r = sort_by_time(s.drop_last());
        r.insert(insert_pos(r, s.last().timestamp), s.last())
    }
}

pub open spec fn time_sorted(s: Seq<MessageNode>) -> bool {
    forall|i: int, j: int| 0 <= i < j < s.len() ==> s[i].timestamp <= s[j].timestamp
}

proof fn lemma_insert_pos(s: Seq<MessageNode>, t: i64)
    requires
        time_sorted(s),
    ensures
        0 <= insert_pos(s, t) <= s.len(),
        forall|i: int| 0 <= i < insert_pos(s, t) ==> s[i].timestamp <= t,
        forall|i: int| insert_pos(s, t) <= i < s.len() ==> s[i].timestamp > t,
    decreases s.len(),
{
    if s.len() > 0 {
        let n = s.len() - 1;
        if s.last().timestamp > t {
            lemma_insert_pos(s.drop_last(), t);
            assert forall|i: int| 0 <= i < insert_pos(s, t) implies s[i].timestamp <= t by {
                assert(s[i] == s.drop_last()[i]);
            }
            assert forall|i: int| insert_pos(s, t) <= i < s.len() implies s[i].timestamp > t by {
                if i < n {
                    assert(s[i] == s.drop_last()[i]);
                }
            }
        } else {
            assert forall|i: int| 0 <= i < insert_pos(s, t) implies s[i].timestamp <= t by {
                if i < n {
                    assert(s[i].timestamp <= s[n].timestamp);
                }
            }
        }
    }
}

/// The result of the ordering is sorted and holds the same nodes.
pub proof fn lemma_sort_by_time(s: Seq<MessageNode>)
    ensures
        time_sorted(sort_by_time(s)),
        sort_by_time(s).to_multiset() == s.to_multiset(),
    decreases s.len(),
{
    if s.len() > 0 {
        let r = sort_by_time(s.drop_last());
        lemma_sort_by_time(s.drop_last());
        let x = s.last();
        lemma_insert_pos(r, x.timestamp);
        let p = insert_pos(r, x.timestamp);
        let q = r.insert(p, x);
        assert forall|i: int, j: int| 0 <= i < j < q.len() implies q[i].timestamp
            <= q[j].timestamp by {
            if j < p {
            } else if j == p {
            } else if i < p {
            } else if i == p {
                assert(q[j] == r[j - 1]);
            } else {
                assert(q[i] == r[i - 1] && q[j] == r[j - 1]);
            }
        }
        r.to_multiset_ensures();
        vstd::seq_lib::lemma_multiset_commutative(s.drop_last(), seq![x]);
        assert(s =~= s.drop_last() + seq![x]);
        assert(q =~= r.take(p) + (seq![x] + r.skip(p)));
        assert(r =~= r.take(p) + r.skip(p));
        vstd::seq_lib::lemma_multiset_commutative(r.take(p), seq![x] + r.skip(p));
        vstd::seq_lib::lemma_multiset_commutative(seq![x], r.skip(p));
        vstd::seq_lib::lemma_multiset_commutative(r.take(p), r.skip(p));
    }
}

/// Sorts nodes by ascending timestamp, keeping equal stamps in order.
pub fn sort_nodes_by_time(nodes: Vec<MessageNode>) -> (r: Vec<MessageNode>)
    ensures
        r@ == sort_by_time(nodes@),
        time_sorted(r@),
{
    let mut out: Vec<MessageNode> = Vec::new();
    let mut i: usize = 0;
    while i < nodes.len()
        invariant
            i <= nodes@.len(),
            out@ == sort_by_time(nodes@.take(i as int)),
        decreases nodes@.len() - i,
    {
        let x = nodes[i].clone();
        let t = x.timestamp;
        let mut p: usize = out.len();
        assert(out@.take(p as int) =~= out@);
        while p > 0 && out[p - 1].timestamp > t
            invariant
                p <= out@.len(),
                insert_pos(out@.take(p as int), t) == insert_pos(out@, t),
            decreases p,
        {
            proof {
                assert(out@.take(p as int).drop_last() =~= out@.take(p as int - 1));
            }
            p -= 1;
        }
        proof {
            assert(nodes@.take(i as int + 1).drop_last() =~= nodes@.take(i as int));
            assert(nodes@.take(i as int + 1).last() == x);
        }
        out.insert(p, x);
        i += 1;
    }
    assert(nodes@.take(nodes@.len() as int) =~= nodes@);
    proof {
        lemma_sort_by_time(nodes@);
    }
    out
}

/// The turns that the nodes record, dropping those with empty content.
pub open spec fn non_empty_turns(ns: Seq<MessageNode>) -> Seq<MessageView>
    decreases ns.len(),
{
    if ns.len() == 0 {
        Seq::empty()
    } else if node_message(ns.last()).content.len() == 0 {
        non_empty_turns(ns.drop_last())
    } else {
        non_empty_turns(ns.drop_last()).push(node_message(ns.last()))
    }
}

pub open spec fn header(text: &'static str) -> MessageView {
    MessageView { role: "system"@, content: text@ }
}

/// Where the block goes: after a leading system message, else first.
pub open spec fn insert_index(ms: Seq<MessageView>) -> int {
    if ms.len() > 0 && is_system_role(ms[0].role) {
        1
    } else {
        0
    }
}

/// The enrichment block: the semantic header, the similar turns in the
/// order given, the recency header, the recent turns oldest first; turns
/// with empty content left out.
pub open spec fn enrichment_block(similar: Seq<MessageNode>, recent: Seq<MessageNode>) -> Seq<
    MessageView,
> {
    seq![header(SEMANTIC_HEADER)] + non_empty_turns(similar) + seq![header(RECENT_HEADER)]
        + non_empty_turns(sort_by_time(recent))
}

/// The request's messages with the block inserted at the insertion index.
pub open spec fn enriched(
    ms: Seq<MessageView>,
    similar: Seq<MessageNode>,
    recent: Seq<MessageNode>,
) -> Seq<MessageView> {
    let k = insert_index(ms);
    ms.take(k) + enrichment_block(similar, recent) + ms.skip(k)
}

/// Appends the non-empty turns of `nodes` to `out`.
fn push_turns(out: &mut Vec<Message>, nodes: &Vec<MessageNode>)
    ensures
        views(final(out)@) == views(old(out)@) + non_empty_turns(nodes@),
{
    let ghost start = views(out@);
    let mut i: usize = 0;
    while i < nodes.len()
        invariant
            i <= nodes@.len(),
            views(out@) == start + non_empty_turns(nodes@.take(i as int)),
        decreases nodes@.len() - i,
    {
        proof {
            assert(nodes@.take(i as int + 1).drop_last() =~= nodes@.take(i as int));
        }
        let m = nodes[i].to_message();
        if m.content.as_str().unicode_len() > 0 {
            let ghost before = views(out@);
            out.push(m);
            assert(views(out@) =~= before.push(m@));
        }
        i += 1;
    }
    assert(nodes@.take(nodes@.len() as int) =~= nodes@);
}

/// Builds the outgoing request: the enrichment block (semantic header,
/// similar turns, recency header, recent turns in chronological order) is
/// inserted after a leading system message, or first; the request's own
/// messages are kept in order, its new prompt last.
pub fn enrich_chat_request(
    similar_messages: Vec<MessageNode>,
    last_messages: Vec<MessageNode>,
    chat_request: &ChatRequest,
) -> (r: ChatRequest)
    ensures
        r.model == chat_request.model,
        views(r.messages@) == enriched(
            views(chat_request.messages@),
            similar_messages@,
            last_messages@,
        ),
{
    let ghost ms = views(chat_request.messages@);
    let recent = sort_nodes_by_time(last_messages);
    let msgs = &chat_request.messages;
    let k: usize = if msgs.len() > 0 && msgs[0].is_system() {
        1
    } else {
        0
    };
    assert(k == insert_index(ms));
    let mut out: Vec<Message> = Vec::new();
    if k == 1 {
        out.push(msgs[0].clone());
    }
    assert(views(out@) =~= ms.take(k as int));
    let ghost v0 = views(out@);
    out.push(Message { role: "system".to_string(), content: SEMANTIC_HEADER.to_string() });
    assert(views(out@) =~= v0.push(header(SEMANTIC_HEADER)));
    push_turns(&mut out, &similar_messages);
    let ghost v1 = views(out@);
    out.push(Message { role: "system".to_string(), content: RECENT_HEADER.to_string() });
    assert(views(out@) =~= v1.push(header(RECENT_HEADER)));
    push_turns(&mut out, &recent);
    let ghost pre = views(out@);
    assert(pre =~= ms.take(k as int) + enrichment_block(similar_messages@, last_messages@));
    let mut j: usize = k;
    while j < msgs.len()
        invariant
            k <= j <= msgs@.len(),
            ms == views(msgs@),
            views(out@) == pre + ms.subrange(k as int, j as int),
        decreases msgs@.len() - j,
    {
        let ghost before = views(out@);
        out.push(msgs[j].clone());
        assert(views(out@) =~= before.push(msgs@[j as int]@));
        assert(ms.subrange(k as int, j as int + 1) =~= ms.subrange(k as int, j as int).push(
            msgs@[j as int]@,
        ));
        j += 1;
    }
    assert(ms.subrange(k as int, msgs@.len() as int) =~= ms.skip(k as int));
    assert(views(out@) =~= enriched(ms, similar_messages@, last_messages@));
    ChatRequest { model: chat_request.model.clone(), messages: out }
}

/// The shape of every enriched request: the request's messages up to the
/// insertion index, the semantic header, the non-empty similar turns, the
/// recency header, the non-empty recent turns, then the rest of the
/// request's messages. The index is 1 exactly when the request opens with a
/// system message, and a last message from the user stays last.
pub proof fn lemma_enrichment_shape(
    ms: Seq<MessageView>,
    similar: Seq<MessageNode>,
    recent: Seq<MessageNode>,
)
    ensures
        ({
            let r = enriched(ms, similar, recent);
            let k = insert_index(ms);
            let s = non_empty_turns(similar).len() as int;
            let t = non_empty_turns(sort_by_time(recent)).len() as int;
            &&& k == 1 <==> ms.len() > 0 && is_system_role(ms[0].role)
            &&& k == 0 <==> !(ms.len() > 0 && is_system_role(ms[0].role))
            &&& r.len() == ms.len() + s + t + 2
            &&& r.take(k) == ms.take(k)
            &&& r[k] == header(SEMANTIC_HEADER)
            &&& r.subrange(k + 1, k + 1 + s) == non_empty_turns(similar)
            &&& r[k + 1 + s] == header(RECENT_HEADER)
            &&& r.subrange(k + 2 + s, k + 2 + s + t) == non_empty_turns(sort_by_time(recent))
            &&& r.skip(k + 2 + s + t) == ms.skip(k)
            &&& ms.len() > 0 && is_user_role(ms.last().role) ==> r.last() == ms.last()
        }),
{
    let r = enriched(ms, similar, recent);
    let k = insert_index(ms);
    let a = non_empty_turns(similar);
    let b = non_empty_turns(sort_by_time(recent));
    let s = a.len() as int;
    let t = b.len() as int;
    assert(0 <= k <= ms.len());
    assert(ms.take(k).len() == k);
    assert(ms.skip(k).len() == ms.len() - k);
    assert(r =~= ms.take(k) + seq![header(SEMANTIC_HEADER)] + a + seq![header(RECENT_HEADER)] + b
        + ms.skip(k));
    assert(r.len() == ms.len() + s + t + 2);
    assert(r.take(k) =~= ms.take(k));
    assert(r.subrange(k + 1, k + 1 + s) =~= a);
    assert(r.subrange(k + 2 + s, k + 2 + s + t) =~= b);
    assert(r.skip(k + 2 + s + t) =~= ms.skip(k));
    if ms.len() > 0 && is_user_role(ms.last().role) {
        reveal_strlit("user");
        reveal_strlit("system");
        if k == 1 && ms.len() == 1 {
            assert(ms.last().role[0] == 'u');
        }
        assert(r.last() == ms.skip(k).last());
    }
}

/// With no similar turns (retrieval found nothing or failed), the recency
/// header directly follows the semantic header; with no history at all the
/// block is the two headers alone.
pub proof fn lemma_empty_similar_block(ms: Seq<MessageView>, recent: Seq<MessageNode>)
    ensures
        ({
            let r = enriched(ms, Seq::empty(), recent);
            let k = insert_index(ms);
            &&& r[k] == header(SEMANTIC_HEADER)
            &&& r[k + 1] == header(RECENT_HEADER)
            &&& recent.len() == 0 ==> r == ms.take(k) + seq![
                header(SEMANTIC_HEADER),
                header(RECENT_HEADER),
            ] + ms.skip(k)
        }),
{
    lemma_enrichment_shape(ms, Seq::empty(), recent);
    assert(non_empty_turns(Seq::<MessageNode>::empty()).len() == 0);
    if recent.len() == 0 {
        assert(sort_by_time(recent) =~= recent);
        assert(non_empty_turns(sort_by_time(recent)) =~= Seq::<MessageView>::empty());
        let r = enriched(ms, Seq::empty(), recent);
        let k = insert_index(ms);
        assert(r =~= ms.take(k) + seq![header(SEMANTIC_HEADER), header(RECENT_HEADER)] + ms.skip(
            k,
        ));
    }
}

} // verus!
