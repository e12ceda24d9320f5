//! The logic of the operational commands: viewing, searching and ingesting
//! history.
use vstd::prelude::*;
use crate::enrich::{sort_by_time, sort_nodes_by_time};
use crate::message::{Message, MessageView, is_text, views};
use crate::node::{MessageNode, content_text, node_message};
use crate::retrieval::{lower_of, lowercased};
use crate::scope::{contains, contains_text};

verus! {

/// The turns that the nodes record, in order.
pub open spec fn turns(ns: Seq<MessageNode>) -> Seq<MessageView> {
    ns.map_values(|n: MessageNode| node_message(n))
}

fn to_messages(nodes: &Vec<MessageNode>) -> (r: Vec<Message>)
    ensures
        views(r@) == turns(nodes@),
{
    let mut out: Vec<Message> = Vec::new();
    let mut i: usize = 0;
    while i < nodes.len()
        invariant
            i <= nodes@.len(),
            out@.len() == i,
            forall|t: int| 0 <= t < i ==> (#[trigger] out@[t])@ == node_message(nodes@[t]),
        decreases nodes@.len() - i,
    {
        out.push(nodes[i].to_message());
        i += 1;
    }
    assert(views(out@) =~= turns(nodes@));
    out
}

/// The latest turns of a scope as a conversation, oldest first.
pub fn chronological_messages(nodes: Vec<MessageNode>) -> (r: Vec<Message>)
    ensures
        views(r@) == turns(sort_by_time(nodes@)),
{
    let sorted = sort_nodes_by_time(nodes);
    to_messages(&sorted)
}

/// The nodes whose key (given position by position in `keys`) contains
/// `term`, in order.
pub open spec fn keyword_hits(ns: Seq<MessageNode>, keys: Seq<Seq<char>>, term: Seq<char>) -> Seq<
    MessageNode,
>
    decreases ns.len(),
{
    if ns.len() == 0 {
        ns
    } else {
        let n = ns.len() - 1;
        let rest = keyword_hits(ns.drop_last(), keys.take(n), term);
        if contains_text(keys[n], term) {
            rest.push(ns[n])
        } else {
            rest
        }
    }
}

/// At most `count` of the first elements of `s`.
pub open spec fn first_n<A>(s: Seq<A>, count: int) -> Seq<A> {
    if s.len() <= count {
        s
    } else {
        s.take(count)
    }
}

/// The first `count` nodes whose key contains `term`, as turns; `keys[i]`
/// is the key of `nodes[i]`.
pub fn filter_by_keyword(nodes: &Vec<MessageNode>, keys: &Vec<String>, term: &str, count: usize) -> (r:
    Vec<Message>)
    requires
        keys@.len() == nodes@.len(),
    ensures
        views(r@) == turns(
            first_n(keyword_hits(nodes@, keys@.map_values(|k: String| k@), term@), count as int),
        ),
{
    let ghost ks = keys@.map_values(|k: String| k@);
    let mut hits: Vec<MessageNode> = Vec::new();
    let mut i: usize = 0;
    while i < nodes.len()
        invariant
            i <= nodes@.len(),
            keys@.len() == nodes@.len(),
            ks == keys@.map_values(|k: String| k@),
            hits@ == keyword_hits(nodes@.take(i as int), ks.take(i as int), term@),
        decreases nodes@.len() - i,
    {
        proof {
            assert(nodes@.take(i as int + 1).drop_last() =~= nodes@.take(i as int));
            assert(ks.take(i as int + 1).take(i as int) =~= ks.take(i as int));
            assert(ks.take(i as int + 1)[i as int] == keys@[i as int]@);
        }
        if contains(keys[i].as_str(), term) {
            hits.push(nodes[i].clone());
        }
        i += 1;
    }
    assert(nodes@.take(nodes@.len() as int) =~= nodes@);
    assert(ks.take(nodes@.len() as int) =~= ks);
    let ghost all = hits@;
    if hits.len() > count {
        hits.truncate(count);
        assert(hits@ =~= all.take(count as int));
    }
    to_messages(&hits)
}

/// The text of a stored content in lower case.
pub open spec fn lowered_content(n: MessageNode) -> Seq<char> {
    lower_of(content_text(n.content))
}

/// Keyword search: the first `count` nodes whose lower-cased content
/// contains the lower-cased term, as turns.
pub fn keyword_search(nodes: &Vec<MessageNode>, term: &str, count: usize) -> (r: Vec<Message>)
    ensures
        views(r@) == turns(
            first_n(
                keyword_hits(
                    nodes@,
                    nodes@.map_values(|n: MessageNode| lowered_content(n)),
                    lower_of(term@),
                ),
                count as int,
            ),
        ),
{
    let mut keys: Vec<String> = Vec::new();
    let mut i: usize = 0;
    while i < nodes.len()
        invariant
            i <= nodes@.len(),
            keys@.len() == i,
            forall|t: int| 0 <= t < i ==> (#[trigger] keys@[t])@ == lowered_content(nodes@[t]),
        decreases nodes@.len() - i,
    {
        let key = match &nodes[i].content {
            Some(c) => lowercased(c.as_str()),
            None => lowercased(""),
        };
        proof {
            reveal_strlit("");
            assert(""@ =~= Seq::<char>::empty());
        }
        keys.push(key);
        i += 1;
    }
    assert(keys@.map_values(|k: String| k@) =~= nodes@.map_values(
        |n: MessageNode| lowered_content(n),
    ));
    let lowered_term = lowercased(term);
    filter_by_keyword(nodes, &keys, lowered_term.as_str(), count)
}

/// Roles a message may be ingested under.
pub open spec fn ingestible_role(role: Seq<char>) -> bool {
    role == "user"@ || role == "assistant"@ || role == "system"@
}

/// Whether `role` is one of `user`, `assistant`, `system`.
pub fn is_allowed_role(role: &String) -> (r: bool)
    ensures
        r == ingestible_role(role@),
{
    is_text(role, "user") || is_text(role, "assistant") || is_text(role, "system")
}

} // verus!
