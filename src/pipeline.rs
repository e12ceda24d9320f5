//! The per-request pipeline as a state machine: each call takes the outcome
//! of the last outside operation (store, embedder, upstream model) and says
//! which operation to perform next. The caller performs the operations.
use vstd::prelude::*;
use crate::budget::truncate_from;
use crate::checks::{RequestError, get_last_message_in_chat_request, is_last_message_too_big};
use crate::compress::{compress_system_context, compressed};
use crate::enrich::{enrich_chat_request, enriched};
use crate::message::{ChatRequest, ChatResponse, MessageView, is_user_role, views};
use crate::model::ModelInfo;
use crate::node::{
    MessageNode,
    SaveAction,
    clone_nodes,
    node_message,
    save_action_of,
    eq_ignoring_ascii_case,
};
use crate::retrieval::{
    LAST_MESSAGES_LIMIT,
    NEIGHBOURHOOD_MIN,
    SIMILAR_MESSAGES_LIMIT,
    choose_similar,
    dedup_with,
    deduplicate_message_nodes,
    expand_with_pairs,
    keys_of,
};
use crate::budget::truncate_messages_if_needed;
use crate::tokens::{capped, message_tokens};
use crate::checks::is_oversize_reply;

verus! {

/// How the upstream model call failed.
#[derive(Debug, PartialEq, Eq)]
pub enum UpstreamError {
    /// The request did not reach the model or no answer came back.
    Transport(String),
    /// The model answered with a non-success HTTP status.
    Status { status: u16, body: String },
    /// The model answered with a body that is not a chat response.
    Malformed(String),
}

/// Why a request ends without a relayed response.
#[derive(Debug, PartialEq, Eq)]
pub enum PipelineError {
    BadRequest(RequestError),
    StoreUnavailable,
    Upstream(UpstreamError),
}

/// Sorts an upstream answer by its HTTP status: a success status hands the
/// body on for parsing, any other is an API-level rejection.
pub fn upstream_outcome(status: u16, body: String) -> (r: Result<String, UpstreamError>)
    ensures
        200 <= status <= 299 ==> r == Ok::<String, UpstreamError>(body),
        !(200 <= status <= 299) ==> r == Err::<String, UpstreamError>(
            UpstreamError::Status { status, body },
        ),
{
    if 200 <= status && status <= 299 {
        Ok(body)
    } else {
        Err(UpstreamError::Status { status, body })
    }
}

/// The operation the pipeline waits on.
#[derive(Debug, PartialEq, Eq, Structural)]
pub enum Stage {
    AwaitSimilar,
    AwaitPairs,
    AwaitNeighbourhood,
    AwaitRecent,
    AwaitInboundSaved,
    AwaitUpstream,
    AwaitReplySaved,
    AwaitSynapses,
    Done,
}

/// What the caller is to do next.
pub enum Action {
    /// Embed `text` and ask the vector index for the `top_k` most similar
    /// user turns of the scope, best first.
    FindSimilar { text: String, partition: String, instance: String, top_k: usize },
    /// Fetch the nodes joined by `RESPONDED_WITH` within `nodes`.
    FindConnections { nodes: Vec<MessageNode> },
    /// Fetch the nodes within ten `SYNAPSE` hops of `node`.
    FindNeighbourhood { node: MessageNode },
    /// Fetch the `count` latest turns of the scope.
    GetRecent { partition: String, instance: String, count: usize },
    /// Embed and save each node, in order. If any embedding or save fails,
    /// answer `InboundSaved(false)`: the request then ends with
    /// `StoreUnavailable`, and nodes saved before the failure stay.
    SaveInbound { nodes: Vec<MessageNode> },
    /// Post `request` to `base_url` with `key` as bearer token.
    Forward { base_url: String, key: String, request: ChatRequest },
    /// Embed and save the reply node.
    SaveReply { node: MessageNode },
    /// Rebuild the `SYNAPSE` edges.
    ConnectSynapses,
    /// Send this response to the client; the request is complete.
    Respond(ChatResponse),
    /// Report this failure to the client; the request is complete.
    Fail(PipelineError),
}

/// The outcome of the operation the pipeline asked for; `None` where the
/// store or the embedder was unavailable.
pub enum Event {
    Similar(Option<Vec<MessageNode>>),
    Pairs(Option<Vec<MessageNode>>),
    Neighbourhood(Option<Vec<MessageNode>>),
    Recent(Option<Vec<MessageNode>>),
    InboundSaved(bool),
    Upstream(Result<ChatResponse, UpstreamError>),
    ReplySaved(bool),
    SynapsesConnected(bool),
}

/// The nodes an answer holds; none where the operation failed.
pub open spec fn found(o: Option<Vec<MessageNode>>) -> Seq<MessageNode> {
    match o {
        Some(v) => v@,
        None => Seq::empty(),
    }
}

fn found_nodes(o: Option<Vec<MessageNode>>) -> (r: Vec<MessageNode>)
    ensures
        r@ == found(o),
{
    match o {
        Some(v) => v,
        None => Vec::new(),
    }
}

/// Whether `event` answers the operation awaited at `stage`.
pub open spec fn answers(stage: Stage, event: Event) -> bool {
    match stage {
        Stage::AwaitSimilar => event is Similar,
        Stage::AwaitPairs => event is Pairs,
        Stage::AwaitNeighbourhood => event is Neighbourhood,
        Stage::AwaitRecent => event is Recent,
        Stage::AwaitInboundSaved => event is InboundSaved,
        Stage::AwaitUpstream => event is Upstream,
        Stage::AwaitReplySaved => event is ReplySaved,
        Stage::AwaitSynapses => event is SynapsesConnected,
        Stage::Done => false,
    }
}

/// The turns of a request that the store keeps: every message that is not
/// a system message, in order.
pub open spec fn inbound_turns(ms: Seq<MessageView>) -> Seq<MessageView>
    decreases ms.len(),
{
    if ms.len() == 0 {
        ms
    } else if save_action_of(ms.last().role) == SaveAction::Skip {
        inbound_turns(ms.drop_last())
    } else {
        inbound_turns(ms.drop_last()).push(ms.last())
    }
}

/// The messages forwarded upstream for a request, given the similar and
/// recent history: enriched, truncated to the limit, then compressed as the
/// forwarder does.
pub open spec fn outgoing_messages(
    ms: Seq<MessageView>,
    similar: Seq<MessageNode>,
    recent: Seq<MessageNode>,
    limit: usize,
) -> Seq<MessageView> {
    compressed(truncate_from(enriched(ms, similar, recent), 0, limit as int))
}

/// A node of this request's trace and scope.
pub open spec fn of_request(n: MessageNode, p: Pipeline) -> bool {
    n.trace_id@ == p.trace_id@ && n.partition@ == p.partition@ && n.instance@ == p.instance@
}

/// One request in flight.
pub struct Pipeline {
    pub stage: Stage,
    pub trace_id: String,
    pub partition: String,
    pub instance: String,
    pub request: ChatRequest,
    pub model: ModelInfo,
    /// The similar set as retrieval has shaped it so far.
    pub similar: Vec<MessageNode>,
    /// The recent turns of the scope.
    pub recent: Vec<MessageNode>,
    /// The upstream response, once there is one to relay.
    pub response: Option<ChatResponse>,
}

/// What starting a request yields: the pipeline holds the request, and its
/// first action is a `BadRequest` failure, the in-band oversize reply, or
/// the similarity search for the last message.
pub open spec fn started(
    r: (Pipeline, Action),
    request: ChatRequest,
    model: ModelInfo,
    partition: String,
    instance: String,
    trace_id: String,
) -> bool {
    let ms = request.messages@;
    let fresh = ms.len() > 0 && is_user_role(ms.last()@.role);
    let cost = capped(message_tokens(ms.last()@));
    &&& r.0.wf()
    &&& r.0.request == request
    &&& r.0.model == model
    &&& r.0.partition == partition
    &&& r.0.instance == instance
    &&& r.0.trace_id == trace_id
    &&& r.0.similar@.len() == 0
    &&& r.0.recent@.len() == 0
    &&& r.0.response is None
    &&& ms.len() == 0 ==> r.0.stage == Stage::Done && (r.1 matches Action::Fail(e) && e
        == PipelineError::BadRequest(RequestError::NoMessages))
    &&& ms.len() > 0 && !is_user_role(ms.last()@.role) ==> r.0.stage == Stage::Done && (
    r.1 matches Action::Fail(e) && e == PipelineError::BadRequest(
        RequestError::LastMessageNotUser,
    ))
    &&& fresh && cost > model.input_tokens ==> r.0.stage == Stage::Done && (
    r.1 matches Action::Respond(resp) && is_oversize_reply(
        resp,
        cost as nat,
        model.input_tokens as nat,
    ))
    &&& fresh && cost <= model.input_tokens ==> r.0.stage == Stage::AwaitSimilar && (
    r.1 matches Action::FindSimilar { text, partition: p, instance: i, top_k } && text@
        == ms.last()@.content && p == partition && i == instance && top_k
        == SIMILAR_MESSAGES_LIMIT)
}

/// Relies on uuid::Uuid::new_v4 and its `Display`: a fresh random
/// identifier in hyphenated form.
#[verifier::external_body]
fn new_trace_id() -> (r: String) {
    uuid::Uuid::new_v4().to_string()
}

impl Pipeline {
    /// The state a pipeline in flight keeps: its request ends with a user
    /// turn, and once the upstream answered with a choice, that answer is held.
    pub open spec fn wf(&self) -> bool {
        &&& self.stage != Stage::Done ==> self.request.messages@.len() > 0 && is_user_role(
            self.request.messages@.last()@.role,
        )
        &&& (self.stage == Stage::AwaitReplySaved || self.stage == Stage::AwaitSynapses)
            ==> self.response is Some
    }

    /// Whether `event` answers the operation this pipeline awaits.
    pub fn accepts(&self, event: &Event) -> (r: bool)
        ensures
            r == answers(self.stage, *event),
    {
        match self.stage {
            Stage::AwaitSimilar => matches!(event, Event::Similar(_)),
            Stage::AwaitPairs => matches!(event, Event::Pairs(_)),
            Stage::AwaitNeighbourhood => matches!(event, Event::Neighbourhood(_)),
            Stage::AwaitRecent => matches!(event, Event::Recent(_)),
            Stage::AwaitInboundSaved => matches!(event, Event::InboundSaved(_)),
            Stage::AwaitUpstream => matches!(event, Event::Upstream(_)),
            Stage::AwaitReplySaved => matches!(event, Event::ReplySaved(_)),
            Stage::AwaitSynapses => matches!(event, Event::SynapsesConnected(_)),
            Stage::Done => false,
        }
    }

    /// Starts a request under a fresh trace id; see [`Pipeline::start`].
    pub fn begin(request: ChatRequest, model: ModelInfo, partition: String, instance: String) -> (r:
        (Pipeline, Action))
        ensures
            started(r, request, model, partition, instance, r.0.trace_id),
    {
        let trace_id = new_trace_id();
        Self::start(request, model, partition, instance, trace_id)
    }

    /// Starts a request: a request without messages, or whose last message
    /// is not from the user, fails; a last message larger than the model's
    /// input limit is answered in-band; otherwise retrieval begins with the
    /// last message as search term.
    pub fn start(
        request: ChatRequest,
        model: ModelInfo,
        partition: String,
        instance: String,
        trace_id: String,
    ) -> (r: (Pipeline, Action))
        ensures
            started(r, request, model, partition, instance, trace_id),
    {
        let checked: Result<String, RequestError> = match get_last_message_in_chat_request(
            &request,
        ) {
            Ok(t) => Ok(t.to_string()),
            Err(e) => Err(e),
        };
        let mut pipeline = Pipeline {
            stage: Stage::Done,
            trace_id,
            partition,
            instance,
            request,
            model,
            similar: Vec::new(),
            recent: Vec::new(),
            response: None,
        };
        let text = match checked {
            Err(e) => {
                return (pipeline, Action::Fail(PipelineError::BadRequest(e)));
            },
            Ok(t) => t,
        };
        let n = pipeline.request.messages.len();
        let too_big = is_last_message_too_big(&pipeline.request.messages[n - 1], &pipeline.model);
        if let Some(resp) = too_big {
            return (pipeline, Action::Respond(resp));
        }
        pipeline.stage = Stage::AwaitSimilar;
        let action = Action::FindSimilar {
            text,
            partition: pipeline.partition.clone(),
            instance: pipeline.instance.clone(),
            top_k: SIMILAR_MESSAGES_LIMIT,
        };
        (pipeline, action)
    }

    /// Advances the request by the outcome of the operation it awaited:
    /// retrieval stages shape the similar set (deduplicated, expanded by
    /// `RESPONDED_WITH` pairs, replaced by a synapse neighbourhood of more
    /// than two nodes) and degrade to empty on failure; then the inbound
    /// turns are saved, the request is enriched, truncated, compressed and
    /// forwarded, and the reply is saved before the synapses are rebuilt.
    pub fn step(&mut self, event: Event) -> (action: Action)
        requires
            old(self).wf(),
            answers(old(self).stage, event),
        ensures
            final(self).wf(),
            final(self).trace_id == old(self).trace_id,
            final(self).partition == old(self).partition,
            final(self).instance == old(self).instance,
            final(self).request == old(self).request,
            final(self).model == old(self).model,
            old(self).stage == Stage::AwaitSimilar ==> ({
                let sim = dedup_with(found(event->Similar_0), keys_of(found(event->Similar_0)));
                &&& final(self).stage == Stage::AwaitPairs
                &&& final(self).similar@ == sim
                &&& action matches Action::FindConnections { nodes } && nodes@ == sim
            }),
            old(self).stage == Stage::AwaitPairs ==> ({
                let expanded = old(self).similar@ + found(event->Pairs_0);
                &&& final(self).similar@ == expanded
                &&& expanded.len() > 0 ==> final(self).stage == Stage::AwaitNeighbourhood && (
                action matches Action::FindNeighbourhood { node } && node == expanded[0])
                &&& expanded.len() == 0 ==> final(self).stage == Stage::AwaitRecent && (
                action matches Action::GetRecent { partition, instance, count } && partition
                    == old(self).partition && instance == old(self).instance && count
                    == LAST_MESSAGES_LIMIT)
            }),
            old(self).stage == Stage::AwaitNeighbourhood ==> ({
                let near = dedup_with(
                    found(event->Neighbourhood_0),
                    keys_of(found(event->Neighbourhood_0)),
                );
                &&& near.len() > NEIGHBOURHOOD_MIN ==> final(self).similar@ == near
                &&& near.len() <= NEIGHBOURHOOD_MIN ==> final(self).similar@ == old(self).similar@
                &&& final(self).stage == Stage::AwaitRecent
                &&& action matches Action::GetRecent { partition, instance, count } && partition
                    == old(self).partition && instance == old(self).instance && count
                    == LAST_MESSAGES_LIMIT
            }),
            old(self).stage == Stage::AwaitRecent ==> ({
                &&& final(self).recent@ == found(event->Recent_0)
                &&& final(self).similar == old(self).similar
                &&& final(self).stage == Stage::AwaitInboundSaved
                &&& action matches Action::SaveInbound { nodes } && nodes@.map_values(
                    |n: MessageNode| node_message(n),
                ) == inbound_turns(views(old(self).request.messages@)) && forall|i: int|
                    0 <= i < nodes@.len() ==> of_request(#[trigger] nodes@[i], *old(self))
            }),
            old(self).stage == Stage::AwaitInboundSaved ==> ({
                &&& !event->InboundSaved_0 ==> final(self).stage == Stage::Done && (
                action matches Action::Fail(e) && e == PipelineError::StoreUnavailable)
                &&& event->InboundSaved_0 ==> final(self).stage == Stage::AwaitUpstream && (
                action matches Action::Forward { base_url, key, request } && base_url
                    == old(self).model.base_url && key == old(self).model.key
                    && request.model@ == old(self).model.name@ && views(request.messages@)
                    == outgoing_messages(
                    views(old(self).request.messages@),
                    old(self).similar@,
                    old(self).recent@,
                    old(self).model.input_tokens,
                ))
            }),
            old(self).stage == Stage::AwaitUpstream ==> ({
                let outcome = event->Upstream_0;
                &&& outcome is Err ==> final(self).stage == Stage::Done && (action matches Action::Fail(
                    f,
                ) && f == PipelineError::Upstream(outcome->Err_0))
                &&& outcome is Ok && outcome->Ok_0.choices@.len() == 0 ==> final(self).stage
                    == Stage::Done && (action matches Action::Respond(r) && r == outcome->Ok_0)
                &&& outcome is Ok && outcome->Ok_0.choices@.len() > 0 ==> final(self).stage
                    == Stage::AwaitReplySaved && final(self).response == Some(outcome->Ok_0) && (
                action matches Action::SaveReply { node } && of_request(node, *old(self))
                    && node_message(node) == outcome->Ok_0.choices@[0].message@)
            }),
            old(self).stage == Stage::AwaitReplySaved ==> ({
                &&& event->ReplySaved_0 ==> final(self).stage == Stage::AwaitSynapses && (
                action is ConnectSynapses) && final(self).response == old(self).response
                &&& !event->ReplySaved_0 ==> final(self).stage == Stage::Done && (
                action matches Action::Respond(r) && old(self).response == Some(r))
            }),
            old(self).stage == Stage::AwaitSynapses ==> final(self).stage == Stage::Done && (
            action matches Action::Respond(r) && old(self).response == Some(r)),
    {
        match event {
            Event::Similar(o) => {
                let sim = deduplicate_message_nodes(found_nodes(o));
                self.similar = clone_nodes(&sim);
                self.stage = Stage::AwaitPairs;
                Action::FindConnections { nodes: sim }
            },
            Event::Pairs(o) => {
                let current = clone_nodes(&self.similar);
                let expanded = expand_with_pairs(current, found_nodes(o));
                if expanded.len() > 0 {
                    let top = expanded[0].clone();
                    self.similar = expanded;
                    self.stage = Stage::AwaitNeighbourhood;
                    Action::FindNeighbourhood { node: top }
                } else {
                    self.similar = expanded;
                    self.stage = Stage::AwaitRecent;
                    self.recent_request()
                }
            },
            Event::Neighbourhood(o) => {
                let current = clone_nodes(&self.similar);
                self.similar = choose_similar(current, found_nodes(o));
                self.stage = Stage::AwaitRecent;
                self.recent_request()
            },
            Event::Recent(o) => {
                self.recent = found_nodes(o);
                self.stage = Stage::AwaitInboundSaved;
                let nodes = self.inbound_nodes();
                Action::SaveInbound { nodes }
            },
            Event::InboundSaved(ok) => {
                if !ok {
                    self.stage = Stage::Done;
                    return Action::Fail(PipelineError::StoreUnavailable);
                }
                let request = self.outgoing_request();
                self.stage = Stage::AwaitUpstream;
                Action::Forward {
                    base_url: self.model.base_url.clone(),
                    key: self.model.key.clone(),
                    request,
                }
            },
            Event::Upstream(outcome) => match outcome {
                Err(e) => {
                    self.stage = Stage::Done;
                    Action::Fail(PipelineError::Upstream(e))
                },
                Ok(resp) => {
                    if resp.choices.len() == 0 {
                        self.stage = Stage::Done;
                        return Action::Respond(resp);
                    }
                    let node = MessageNode::from_message(
                        &resp.choices[0].message,
                        self.trace_id.as_str(),
                        self.partition.as_str(),
                        self.instance.as_str(),
                    );
                    self.response = Some(resp);
                    self.stage = Stage::AwaitReplySaved;
                    Action::SaveReply { node }
                },
            },
            Event::ReplySaved(ok) => {
                if ok {
                    self.stage = Stage::AwaitSynapses;
                    Action::ConnectSynapses
                } else {
                    self.stage = Stage::Done;
                    self.finish()
                }
            },
            Event::SynapsesConnected(_) => {
                self.stage = Stage::Done;
                self.finish()
            },
        }
    }

    fn recent_request(&self) -> (action: Action)
        ensures
            action matches Action::GetRecent { partition, instance, count } && partition
                == self.partition && instance == self.instance && count == LAST_MESSAGES_LIMIT,
    {
        Action::GetRecent {
            partition: self.partition.clone(),
            instance: self.instance.clone(),
            count: LAST_MESSAGES_LIMIT,
        }
    }

    /// Hands out the held response.
    fn finish(&mut self) -> (action: Action)
        requires
            old(self).response is Some,
        ensures
            action matches Action::Respond(r) && old(self).response == Some(r),
            final(self).response is None,
            final(self).stage == old(self).stage,
            final(self).trace_id == old(self).trace_id,
            final(self).partition == old(self).partition,
            final(self).instance == old(self).instance,
            final(self).request == old(self).request,
            final(self).model == old(self).model,
    {
        match self.response.take() {
            Some(r) => Action::Respond(r),
            None => {
                proof {
                    assert(false);
                }
                Action::Fail(PipelineError::StoreUnavailable)
            },
        }
    }

    /// A node of this request for every message that the store keeps.
    fn inbound_nodes(&self) -> (nodes: Vec<MessageNode>)
        ensures
            nodes@.map_values(|n: MessageNode| node_message(n)) == inbound_turns(
                views(self.request.messages@),
            ),
            forall|i: int| 0 <= i < nodes@.len() ==> of_request(#[trigger] nodes@[i], *self),
    {
        let ghost ms = views(self.request.messages@);
        let msgs = &self.request.messages;
        let mut nodes: Vec<MessageNode> = Vec::new();
        let mut i: usize = 0;
        while i < msgs.len()
            invariant
                i <= msgs@.len(),
                msgs == &self.request.messages,
                ms == views(msgs@),
                nodes@.map_values(|n: MessageNode| node_message(n)) == inbound_turns(
                    ms.take(i as int),
                ),
                forall|t: int| 0 <= t < nodes@.len() ==> of_request(#[trigger] nodes@[t], *self),
            decreases msgs@.len() - i,
        {
            proof {
                assert(ms.take(i as int + 1).drop_last() =~= ms.take(i as int));
                assert(ms.take(i as int + 1).last() == msgs@[i as int]@);
            }
            let node = MessageNode::from_message(
                &msgs[i],
                self.trace_id.as_str(),
                self.partition.as_str(),
                self.instance.as_str(),
            );
            if crate::node::save_action(&node) != SaveAction::Skip {
                let ghost before = nodes@;
                nodes.push(node);
                assert(nodes@.map_values(|n: MessageNode| node_message(n)) =~= before.map_values(
                    |n: MessageNode| node_message(n),
                ).push(msgs@[i as int]@));
            }
            i += 1;
        }
        assert(ms.take(msgs@.len() as int) =~= ms);
        nodes
    }

    /// The request sent upstream: enriched with the retrieved history,
    /// truncated to the model's input limit, its leading system run folded.
    fn outgoing_request(&self) -> (r: ChatRequest)
        ensures
            r.model@ == self.model.name@,
            views(r.messages@) == outgoing_messages(
                views(self.request.messages@),
                self.similar@,
                self.recent@,
                self.model.input_tokens,
            ),
    {
        let similar = clone_nodes(&self.similar);
        let recent = clone_nodes(&self.recent);
        let enriched_request = enrich_chat_request(similar, recent, &self.request);
        let mut messages = enriched_request.messages;
        truncate_messages_if_needed(&mut messages, self.model.input_tokens);
        ChatRequest { model: self.model.name.clone(), messages: compress_system_context(&messages) }
    }
}

/// The pairing a successful request leaves for the store: among the
/// inbound nodes saved for a request whose last message is the user's,
/// there is that user turn, under the request's trace id; an assistant reply
/// saved under the same trace id is linked to it by `RESPONDED_WITH`, and
/// the user turn is not itself a linking save.
pub proof fn lemma_reply_pairs_with_prompt(p: Pipeline, inbound: Seq<MessageNode>, reply: MessageNode)
    requires
        p.request.messages@.len() > 0,
        is_user_role(p.request.messages@.last()@.role),
        inbound.map_values(|n: MessageNode| node_message(n)) == inbound_turns(
            views(p.request.messages@),
        ),
        forall|i: int| 0 <= i < inbound.len() ==> of_request(#[trigger] inbound[i], p),
        of_request(reply, p),
        reply.role@ == "assistant"@,
    ensures
        save_action_of(reply.role@) == SaveAction::CreateAndLink,
        exists|i: int|
            0 <= i < inbound.len() && (#[trigger] inbound[i]).role@ == "user"@
                && inbound[i].trace_id@ == reply.trace_id@ && node_message(inbound[i])
                == p.request.messages@.last()@ && save_action_of(inbound[i].role@)
                == SaveAction::Create,
{
    reveal_strlit("assistant");
    reveal_strlit("system");
    reveal_strlit("user");
    let ms = views(p.request.messages@);
    let last = ms.last();
    assert(last == p.request.messages@.last()@);
    assert(!eq_ignoring_ascii_case(last.role, "system"@)) by {
        assert(last.role[0] == 'u');
    }
    assert(!eq_ignoring_ascii_case(last.role, "assistant"@)) by {
        assert(last.role.len() == 4);
    }
    assert(eq_ignoring_ascii_case(reply.role@, "assistant"@));
    assert(!eq_ignoring_ascii_case(reply.role@, "system"@));
    let views_in = inbound.map_values(|n: MessageNode| node_message(n));
    let n = inbound.len() - 1;
    assert(views_in.len() == inbound.len());
    assert(views_in.last() == last);
    assert(node_message(inbound[n]) == last);
}

} // verus!
