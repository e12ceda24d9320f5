//! Chat messages, requests and responses in the OpenAI chat-completions shape.
use vstd::prelude::*;

verus! {

/// The mathematical content of a chat turn.
pub struct MessageView {
    pub role: Seq<char>,
    pub content: Seq<char>,
}

/// A chat turn: a role (`user`, `assistant`, `system`, ...) and its text.
pub struct Message {
    pub role: String,
    pub content: String,
}

impl View for Message {
    type V = MessageView;

    open spec fn view(&self) -> MessageView {
        MessageView { role: self.role@, content: self.content@ }
    }
}

impl Clone for Message {
    fn clone(&self) -> (r: Self)
        ensures
            r@ == self@,
    {
        Message { role: self.role.clone(), content: self.content.clone() }
    }
}

pub open spec fn is_system_role(role: Seq<char>) -> bool {
    role == "system"@
}

pub open spec fn is_user_role(role: Seq<char>) -> bool {
    role == "user"@
}

/// Whether `text` is exactly `lit` (a role, a method, a path, a key).
pub fn is_text(text: &String, lit: &str) -> (r: bool)
    ensures
        r == (text@ == lit@),
{
    let expected = lit.to_string();
    *text == expected
}

impl Message {
    pub fn is_system(&self) -> (r: bool)
        ensures
            r == is_system_role(self@.role),
    {
        is_text(&self.role, "system")
    }

    pub fn is_user(&self) -> (r: bool)
        ensures
            r == is_user_role(self@.role),
    {
        is_text(&self.role, "user")
    }
}

/// The views of a list of messages.
pub open spec fn views(ms: Seq<Message>) -> Seq<MessageView> {
    ms.map_values(|m: Message| m@)
}

/// A chat-completion request: the model name and the conversation so far.
pub struct ChatRequest {
    pub model: String,
    pub messages: Vec<Message>,
}

impl Clone for ChatRequest {
    fn clone(&self) -> (r: Self)
        ensures
            r.model@ == self.model@,
            views(r.messages@) == views(self.messages@),
    {
        ChatRequest { model: self.model.clone(), messages: clone_messages(&self.messages) }
    }
}

/// Copies a list of messages one by one.
pub fn clone_messages(ms: &Vec<Message>) -> (r: Vec<Message>)
    ensures
        views(r@) == views(ms@),
{
    let mut out: Vec<Message> = Vec::new();
    let mut i: usize = 0;
    while i < ms.len()
        invariant
            i <= ms@.len(),
            out@.len() == i,
            forall|k: int| 0 <= k < i ==> (#[trigger] out@[k])@ == ms@[k]@,
        decreases ms@.len() - i,
    {
        out.push(ms[i].clone());
        i += 1;
    }
    assert(views(out@) =~= views(ms@));
    out
}

impl ChatRequest {
    pub fn new(model: String, messages: Vec<Message>) -> (r: ChatRequest)
        ensures
            r.model == model,
            r.messages == messages,
    {
        ChatRequest { model, messages }
    }
}

/// Token accounting reported by the upstream model.
pub struct Usage {
    pub prompt_tokens: i64,
    pub completion_tokens: i64,
    pub total_tokens: i64,
}

/// One completion alternative of a response.
pub struct Choice {
    pub message: Message,
    pub finish_reason: String,
    pub index: u64,
}

/// A chat-completion response; every field but `choices` may be absent.
pub struct ChatResponse {
    pub id: Option<String>,
    pub object: Option<String>,
    pub created: Option<i64>,
    pub model: Option<String>,
    pub usage: Option<Usage>,
    pub choices: Vec<Choice>,
}

impl ChatResponse {
    pub fn new(
        id: Option<String>,
        object: Option<String>,
        created: Option<i64>,
        model: Option<String>,
        usage: Option<Usage>,
        choices: Vec<Choice>,
    ) -> (r: ChatResponse)
        ensures
            r.id == id,
            r.object == object,
            r.created == created,
            r.model == model,
            r.usage == usage,
            r.choices == choices,
    {
        ChatResponse { id, object, created, model, usage, choices }
    }
}

/// The error body of an OpenAI-style API.
pub struct ErrorResponse {
    pub error: ErrorDetail,
}

pub struct ErrorDetail {
    pub message: String,
}

} // verus!
