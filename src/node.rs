//! Persisted chat turns and the rule that decides what the store keeps.
use vstd::prelude::*;
use crate::message::{Message, MessageView, is_system_role};

verus! {

/// A persisted chat turn. Its embedding vector travels beside it, with the
/// store, and is not part of the logic here.
pub struct MessageNode {
    pub trace_id: String,
    pub partition: String,
    pub instance: String,
    pub content: Option<String>,
    pub role: String,
    pub url: Option<String>,
    pub timestamp: i64,
}

fn clone_opt(v: &Option<String>) -> (r: Option<String>)
    ensures
        r == *v,
{
    match v {
        Some(s) => Some(s.clone()),
        None => None,
    }
}

impl Clone for MessageNode {
    fn clone(&self) -> (r: Self)
        ensures
            r == *self,
    {
        MessageNode {
            trace_id: self.trace_id.clone(),
            partition: self.partition.clone(),
            instance: self.instance.clone(),
            content: clone_opt(&self.content),
            role: self.role.clone(),
            url: clone_opt(&self.url),
            timestamp: self.timestamp,
        }
    }
}

/// Relies on chrono::Utc::now and DateTime::timestamp_millis: the current
/// time in milliseconds since the Unix epoch.
#[verifier::external_body]
fn now_millis() -> (r: i64) {
    chrono::Utc::now().timestamp_millis()
}

/// The text of a stored content, empty where there is none.
pub open spec fn content_text(c: Option<String>) -> Seq<char> {
    match c {
        Some(s) => s@,
        None => Seq::empty(),
    }
}

/// The chat turn that a node records.
pub open spec fn node_message(n: MessageNode) -> MessageView {
    MessageView { role: n.role@, content: content_text(n.content) }
}

impl MessageNode {
    /// A node stamped with the current time.
    pub fn new(
        trace_id: String,
        partition: String,
        instance: String,
        role: String,
        content: Option<String>,
        url: Option<String>,
    ) -> (r: MessageNode)
        ensures
            r.trace_id == trace_id,
            r.partition == partition,
            r.instance == instance,
            r.role == role,
            r.content == content,
            r.url == url,
    {
        MessageNode { trace_id, partition, instance, role, content, url, timestamp: now_millis() }
    }

    /// An empty user node of the default scope, stamped with the current time.
    pub fn default() -> (r: MessageNode)
        ensures
            r.trace_id@ == "test-traceid"@,
            r.partition@ == "default"@,
            r.instance@ == "default"@,
            r.role@ == "user"@,
            r.content is None,
            r.url is None,
    {
        MessageNode {
            trace_id: "test-traceid".to_string(),
            partition: "default".to_string(),
            instance: "default".to_string(),
            role: "user".to_string(),
            content: None,
            url: None,
            timestamp: now_millis(),
        }
    }

    pub fn to_message(&self) -> (r: Message)
        ensures
            r@ == node_message(*self),
    {
        let content = match &self.content {
            Some(c) => c.clone(),
            None => String::new(),
        };
        Message { role: self.role.clone(), content }
    }

    /// A node recording `message` in the given scope, stamped with the current time.
    pub fn from_message(message: &Message, trace_id: &str, partition: &str, instance: &str) -> (r:
        MessageNode)
        ensures
            r.trace_id@ == trace_id@,
            r.partition@ == partition@,
            r.instance@ == instance@,
            r.role@ == message.role@,
            r.content matches Some(c) && c@ == message.content@,
            r.url is None,
    {
        MessageNode {
            trace_id: trace_id.to_string(),
            partition: partition.to_string(),
            instance: instance.to_string(),
            role: message.role.clone(),
            content: Some(message.content.clone()),
            url: None,
            timestamp: now_millis(),
        }
    }
}

/// `a` and `b` are the same letter up to ASCII case.
pub open spec fn same_ignoring_ascii_case(a: char, b: char) -> bool {
    a == b || ('A' <= a <= 'Z' && b as u32 == a as u32 + 32) || ('A' <= b <= 'Z' && a as u32
        == b as u32 + 32)
}

/// `a` and `b` spell the same text up to ASCII case.
pub open spec fn eq_ignoring_ascii_case(a: Seq<char>, b: Seq<char>) -> bool {
    a.len() == b.len() && forall|i: int|
        0 <= i < a.len() ==> same_ignoring_ascii_case(#[trigger] a[i], b[i])
}

/// Compares two texts up to ASCII case.
pub fn eq_ignore_ascii_case(a: &str, b: &str) -> (r: bool)
    ensures
        r == eq_ignoring_ascii_case(a@, b@),
{
    let n = a.unicode_len();
    if n != b.unicode_len() {
        return false;
    }
    let mut i: usize = 0;
    while i < n
        invariant
            n == a@.len(),
            n == b@.len(),
            i <= n,
            forall|j: int| 0 <= j < i ==> same_ignoring_ascii_case(#[trigger] a@[j], b@[j]),
        decreases n - i,
    {
        let x = a.get_char(i);
        let y = b.get_char(i);
        let same = x == y || ('A' <= x && x <= 'Z' && (y as u32) == (x as u32) + 32) || (
        'A' <= y && y <= 'Z' && (x as u32) == (y as u32) + 32);
        if !same {
            return false;
        }
        i += 1;
    }
    true
}

/// What the store does with a node that it is asked to save.
#[derive(Debug, PartialEq, Eq, Structural)]
pub enum SaveAction {
    /// System turns are never persisted.
    Skip,
    /// Persist the node with its embedding.
    Create,
    /// Persist the node, then link the user turn of its trace to it by `RESPONDED_WITH`.
    CreateAndLink,
}

pub open spec fn save_action_of(role: Seq<char>) -> SaveAction {
    if eq_ignoring_ascii_case(role, "system"@) {
        SaveAction::Skip
    } else if eq_ignoring_ascii_case(role, "assistant"@) {
        SaveAction::CreateAndLink
    } else {
        SaveAction::Create
    }
}

/// Decides how a node is saved: system turns (in any ASCII case) are
/// skipped, assistant turns are linked to their trace's user turn.
pub fn save_action(node: &MessageNode) -> (r: SaveAction)
    ensures
        r == save_action_of(node.role@),
{
    if eq_ignore_ascii_case(node.role.as_str(), "system") {
        SaveAction::Skip
    } else if eq_ignore_ascii_case(node.role.as_str(), "assistant") {
        SaveAction::CreateAndLink
    } else {
        SaveAction::Create
    }
}

/// The nodes that a run of saves leaves in the store, in order.
pub open spec fn persisted(ns: Seq<MessageNode>) -> Seq<MessageNode>
    decreases ns.len(),
{
    if ns.len() == 0 {
        ns
    } else if save_action_of(ns.last().role@) == SaveAction::Skip {
        persisted(ns.drop_last())
    } else {
        persisted(ns.drop_last()).push(ns.last())
    }
}

/// Whatever roles a run of saves carries, no system node is persisted.
pub proof fn lemma_no_system_persisted(ns: Seq<MessageNode>)
    ensures
        forall|i: int|
            0 <= i < persisted(ns).len() ==> !is_system_role((#[trigger] persisted(ns)[i]).role@),
    decreases ns.len(),
{
    if ns.len() > 0 {
        lemma_no_system_persisted(ns.drop_last());
        reveal_strlit("system");
        let r = ns.last().role@;
        if is_system_role(r) {
            assert(eq_ignoring_ascii_case(r, "system"@));
        }
    }
}

/// The nodes of `nodes` that the store keeps, in order.
pub fn persistable_nodes(nodes: &Vec<MessageNode>) -> (r: Vec<MessageNode>)
    ensures
        r@ == persisted(nodes@),
        forall|i: int| 0 <= i < r@.len() ==> !is_system_role((#[trigger] r@[i]).role@),
{
    let mut out: Vec<MessageNode> = Vec::new();
    let mut i: usize = 0;
    while i < nodes.len()
        invariant
            i <= nodes@.len(),
            out@ == persisted(nodes@.take(i as int)),
        decreases nodes@.len() - i,
    {
        proof {
            assert(nodes@.take(i as int + 1).drop_last() =~= nodes@.take(i as int));
        }
        if save_action(&nodes[i]) != SaveAction::Skip {
            out.push(nodes[i].clone());
        }
        i += 1;
    }
    assert(nodes@.take(nodes@.len() as int) =~= nodes@);
    proof {
        lemma_no_system_persisted(nodes@);
    }
    out
}

/// Copies a list of nodes.
pub fn clone_nodes(ns: &Vec<MessageNode>) -> (r: Vec<MessageNode>)
    ensures
        r@ == ns@,
{
    let mut out: Vec<MessageNode> = Vec::new();
    let mut i: usize = 0;
    while i < ns.len()
        invariant
            i <= ns@.len(),
            out@ == ns@.take(i as int),
        decreases ns@.len() - i,
    {
        out.push(ns[i].clone());
        i += 1;
        assert(out@ =~= ns@.take(i as int));
    }
    assert(ns@.take(ns@.len() as int) =~= ns@);
    out
}

} // verus!
