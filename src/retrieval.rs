//! Ranking retrieved history: deduplication by normalised content and the
//! choice between the similar set and its synapse neighbourhood.
use vstd::prelude::*;
use crate::node::{MessageNode, content_text};

verus! {

/// How many similar user turns are asked of the vector index.
pub const SIMILAR_MESSAGES_LIMIT: usize = 7;

/// How many recent turns of the scope are fetched.
pub const LAST_MESSAGES_LIMIT: usize = 15;

/// The vector index is asked for this many times `top_k` candidates, since
/// filtering by scope and role afterwards thins them out.
pub const OVER_FETCH: usize = 3;

/// A synapse neighbourhood replaces the similar set only when it holds more
/// nodes than this.
pub const NEIGHBOURHOOD_MIN: usize = 2;

/// How many candidates to ask the vector index for, for `top_k` results
/// (saturating at the largest `usize`).
pub fn candidate_count(top_k: usize) -> (r: usize)
    ensures
        r == if top_k * OVER_FETCH <= usize::MAX {
            top_k * OVER_FETCH
        } else {
            usize::MAX as int
        },
{
    if top_k > usize::MAX / OVER_FETCH {
        usize::MAX
    } else {
        top_k * OVER_FETCH
    }
}

/// The text in lower case, as `str::to_lowercase` gives it.
pub uninterp spec fn lower_of(s: Seq<char>) -> Seq<char>;

/// The characters with the Unicode `White_Space` property.
pub open spec fn is_white_space(c: char) -> bool {
    let u = c as u32;
    (0x9 <= u <= 0xD) || u == 0x20 || u == 0x85 || u == 0xA0 || u == 0x1680 || (0x2000 <= u
        <= 0x200A) || u == 0x2028 || u == 0x2029 || u == 0x202F || u == 0x205F || u == 0x3000
}

fn white_space(c: char) -> (r: bool)
    ensures
        r == is_white_space(c),
{
    let u = c as u32;
    (0x9 <= u && u <= 0xD) || u == 0x20 || u == 0x85 || u == 0xA0 || u == 0x1680 || (0x2000 <= u
        && u <= 0x200A) || u == 0x2028 || u == 0x2029 || u == 0x202F || u == 0x205F || u == 0x3000
}

/// First position at or after `i` that is not white space, or the length.
pub open spec fn content_start(s: Seq<char>, i: int) -> int
    decreases s.len() - i,
{
    if i < 0 || i >= s.len() || !is_white_space(s[i]) {
        i
    } else {
        content_start(s, i + 1)
    }
}

/// End of the text before the white space that closes the first `j`
/// characters.
pub open spec fn content_end(s: Seq<char>, j: int) -> int
    decreases j,
{
    if j <= 0 || j > s.len() || !is_white_space(s[j - 1]) {
        j
    } else {
        content_end(s, j - 1)
    }
}

/// The text without leading and trailing white space.
pub open spec fn trim_of(s: Seq<char>) -> Seq<char> {
    let a = content_start(s, 0);
    if a >= s.len() {
        Seq::empty()
    } else {
        s.subrange(a, content_end(s, s.len() as int))
    }
}

/// Removes leading and trailing white space.
pub fn trimmed(s: &str) -> (r: &str)
    ensures
        r@ == trim_of(s@),
{
    let n = s.unicode_len();
    let mut a: usize = 0;
    while a < n && white_space(s.get_char(a))
        invariant
            n == s@.len(),
            a <= n,
            content_start(s@, a as int) == content_start(s@, 0),
        decreases n - a,
    {
        a += 1;
    }
    if a == n {
        return s.substring_char(n, n);
    }
    let mut b: usize = n;
    while b > a + 1 && white_space(s.get_char(b - 1))
        invariant
            n == s@.len(),
            a < b <= n,
            content_end(s@, b as int) == content_end(s@, n as int),
        decreases b,
    {
        b -= 1;
    }
    assert(!is_white_space(s@[a as int]));
    s.substring_char(a, b)
}

/// Relies on str::to_lowercase: the Unicode lower-case mapping of the text
/// (context-dependent only for a final sigma, within the text), a function
/// of the text alone.
#[verifier::external_body]
pub(crate) fn lowercased(s: &str) -> (r: String)
    ensures
        r@ == lower_of(s@),
{
    s.to_lowercase()
}

/// The key under which retrieved nodes count as duplicates: their content,
/// trimmed and lower-cased.
pub open spec fn dedup_key(n: MessageNode) -> Seq<char> {
    lower_of(trim_of(content_text(n.content)))
}

/// Whether `ks[n]` already occurs before position `n`.
pub open spec fn seen_before(ks: Seq<Seq<char>>, n: int) -> bool {
    exists|j: int| 0 <= j < n && ks[j] == ks[n]
}

/// The nodes whose key (given position by position in `ks`) has not
/// occurred earlier: the first node of each key, in order.
pub open spec fn dedup_with(ns: Seq<MessageNode>, ks: Seq<Seq<char>>) -> Seq<MessageNode>
    decreases ns.len(),
{
    if ns.len() == 0 {
        ns
    } else {
        let n = ns.len() - 1;
        let rest = dedup_with(ns.drop_last(), ks.take(n));
        if seen_before(ks, n) {
            rest
        } else {
            rest.push(ns[n])
        }
    }
}

/// The keys of a list of nodes.
pub open spec fn keys_of(ns: Seq<MessageNode>) -> Seq<Seq<char>> {
    ns.map_values(|n: MessageNode| dedup_key(n))
}

fn key_seen_before(keys: &Vec<String>, n: usize) -> (r: bool)
    requires
        n < keys@.len(),
    ensures
        r == seen_before(keys@.map_values(|k: String| k@), n as int),
{
    let ghost ks = keys@.map_values(|k: String| k@);
    let mut j: usize = 0;
    while j < n
        invariant
            n < keys@.len(),
            j <= n,
            ks == keys@.map_values(|k: String| k@),
            forall|t: int| 0 <= t < j ==> ks[t] != ks[n as int],
        decreases n - j,
    {
        if keys[j] == keys[n] {
            assert(ks[j as int] == ks[n as int]);
            return true;
        }
        j += 1;
    }
    false
}

/// Keeps the first node of each key, `keys[i]` being the key of `nodes[i]`.
pub fn dedup_by_keys(nodes: Vec<MessageNode>, keys: &Vec<String>) -> (r: Vec<MessageNode>)
    requires
        keys@.len() == nodes@.len(),
    ensures
        r@ == dedup_with(nodes@, keys@.map_values(|k: String| k@)),
{
    let ghost ks = keys@.map_values(|k: String| k@);
    let mut out: Vec<MessageNode> = Vec::new();
    let mut i: usize = 0;
    while i < nodes.len()
        invariant
            i <= nodes@.len(),
            keys@.len() == nodes@.len(),
            ks == keys@.map_values(|k: String| k@),
            out@ == dedup_with(nodes@.take(i as int), ks.take(i as int)),
        decreases nodes@.len() - i,
    {
        proof {
            let nt = nodes@.take(i as int + 1);
            let kt = ks.take(i as int + 1);
            assert(nt.drop_last() =~= nodes@.take(i as int));
            assert(kt.take(i as int) =~= ks.take(i as int));
            assert(seen_before(kt, i as int) == seen_before(ks, i as int)) by {
                if seen_before(ks, i as int) {
                    let j = choose|j: int| 0 <= j < i && ks[j] == ks[i as int];
                    assert(kt[j] == kt[i as int]);
                }
                if seen_before(kt, i as int) {
                    let j = choose|j: int| 0 <= j < i && kt[j] == kt[i as int];
                    assert(ks[j] == ks[i as int]);
                }
            }
        }
        if !key_seen_before(keys, i) {
            out.push(nodes[i].clone());
        }
        i += 1;
    }
    assert(nodes@.take(nodes@.len() as int) =~= nodes@);
    assert(ks.take(nodes@.len() as int) =~= ks);
    out
}

/// Every node that deduplication keeps comes from the input.
pub proof fn lemma_dedup_from_input(ns: Seq<MessageNode>, ks: Seq<Seq<char>>)
    ensures
        forall|i: int|
            0 <= i < dedup_with(ns, ks).len() ==> exists|j: int|
                0 <= j < ns.len() && ns[j] == #[trigger] dedup_with(ns, ks)[i],
    decreases ns.len(),
{
    if ns.len() > 0 {
        let n = ns.len() - 1;
        lemma_dedup_from_input(ns.drop_last(), ks.take(n));
        let rest = dedup_with(ns.drop_last(), ks.take(n));
        assert forall|i: int| 0 <= i < dedup_with(ns, ks).len() implies exists|j: int|
            0 <= j < ns.len() && ns[j] == #[trigger] dedup_with(ns, ks)[i] by {
            if i < rest.len() {
                let j = choose|j: int| 0 <= j < n && ns.drop_last()[j] == rest[i];
                assert(ns[j] == dedup_with(ns, ks)[i]);
            } else {
                assert(ns[n] == dedup_with(ns, ks)[i]);
            }
        }
    }
}

/// Deduplicating by the nodes' own keys leaves no two nodes with the same
/// trimmed, lower-cased content.
pub proof fn lemma_dedup_distinct(ns: Seq<MessageNode>)
    ensures
        forall|i: int, j: int|
            0 <= i < j < dedup_with(ns, keys_of(ns)).len() ==> dedup_key(
                #[trigger] dedup_with(ns, keys_of(ns))[i],
            ) != dedup_key(#[trigger] dedup_with(ns, keys_of(ns))[j]),
    decreases ns.len(),
{
    if ns.len() > 0 {
        let n = ns.len() - 1;
        let ks = keys_of(ns);
        let front = ns.drop_last();
        assert(ks.take(n) =~= keys_of(front));
        lemma_dedup_distinct(front);
        lemma_dedup_from_input(front, keys_of(front));
        let rest = dedup_with(front, keys_of(front));
        let r = dedup_with(ns, ks);
        if !seen_before(ks, n) {
            assert forall|i: int, j: int| 0 <= i < j < r.len() implies dedup_key(
                #[trigger] r[i],
            ) != dedup_key(#[trigger] r[j]) by {
                if j == rest.len() {
                    let t = choose|t: int| 0 <= t < front.len() && front[t] == rest[i];
                    assert(ks[t] == dedup_key(ns[t]));
                    assert(ns[t] == front[t]);
                    assert(ks[n] == dedup_key(ns[n]));
                } else {
                    assert(r[i] == rest[i] && r[j] == rest[j]);
                }
            }
        }
    }
}

/// The deduplication key of each node.
pub fn dedup_keys(nodes: &Vec<MessageNode>) -> (r: Vec<String>)
    ensures
        r@.map_values(|k: String| k@) == keys_of(nodes@),
{
    let mut out: Vec<String> = Vec::new();
    let mut i: usize = 0;
    while i < nodes.len()
        invariant
            i <= nodes@.len(),
            out@.len() == i,
            forall|t: int| 0 <= t < i ==> (#[trigger] out@[t])@ == dedup_key(nodes@[t]),
        decreases nodes@.len() - i,
    {
        let key = match &nodes[i].content {
            Some(c) => lowercased(trimmed(c.as_str())),
            None => lowercased(trimmed("")),
        };
        proof {
            reveal_strlit("");
            assert(""@ =~= Seq::<char>::empty());
        }
        assert(key@ == dedup_key(nodes@[i as int]));
        out.push(key);
        i += 1;
    }
    assert(out@.map_values(|k: String| k@) =~= keys_of(nodes@));
    out
}

/// Keeps the first node of each trimmed, lower-cased content. Retrieved
/// lists come best-scored first, so the kept node is the best-scored one.
pub fn deduplicate_message_nodes(message_nodes: Vec<MessageNode>) -> (r: Vec<MessageNode>)
    ensures
        r@ == dedup_with(message_nodes@, keys_of(message_nodes@)),
        forall|i: int, j: int|
            0 <= i < j < r@.len() ==> dedup_key(#[trigger] r@[i]) != dedup_key(#[trigger] r@[j]),
{
    let keys = dedup_keys(&message_nodes);
    assert(keys@.map_values(|k: String| k@).len() == keys@.len());
    assert(keys_of(message_nodes@).len() == message_nodes@.len());
    proof {
        lemma_dedup_distinct(message_nodes@);
    }
    dedup_by_keys(message_nodes, &keys)
}

/// The similar set after graph expansion: the nodes paired by
/// `RESPONDED_WITH` are appended to it.
pub fn expand_with_pairs(similar: Vec<MessageNode>, pairs: Vec<MessageNode>) -> (r: Vec<
    MessageNode,
>)
    ensures
        r@ == similar@ + pairs@,
{
    let mut out = similar;
    let mut extra = pairs;
    out.append(&mut extra);
    out
}

/// The set handed to the context builder: the synapse neighbourhood of the
/// top node, deduplicated, when it holds more than two nodes; else the
/// expanded similar set.
pub fn choose_similar(expanded: Vec<MessageNode>, neighbourhood: Vec<MessageNode>) -> (r: Vec<
    MessageNode,
>)
    ensures
        dedup_with(neighbourhood@, keys_of(neighbourhood@)).len() > NEIGHBOURHOOD_MIN ==> r@
            == dedup_with(neighbourhood@, keys_of(neighbourhood@)),
        dedup_with(neighbourhood@, keys_of(neighbourhood@)).len() <= NEIGHBOURHOOD_MIN ==> r@
            == expanded@,
{
    let near = deduplicate_message_nodes(neighbourhood);
    if near.len() > NEIGHBOURHOOD_MIN {
        near
    } else {
        expanded
    }
}

} // verus!
