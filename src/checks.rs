//! Entry checks on an incoming request: who spoke last, and whether the
//! newest turn alone is larger than the model accepts.
use vstd::prelude::*;
use crate::message::{ChatRequest, ChatResponse, Choice, Message, is_user_role};
use crate::model::ModelInfo;
use crate::tokens::{capped, count_single_message_tokens, message_tokens};

verus! {

/// Why a request cannot be served.
#[derive(Debug, PartialEq, Eq, Structural)]
pub enum RequestError {
    NoMessages,
    LastMessageNotUser,
}

/// The search term of a request: the content of its last message, which must
/// come from the user.
pub fn get_last_message_in_chat_request(chat_request: &ChatRequest) -> (r: Result<
    &str,
    RequestError,
>)
    ensures
        chat_request.messages@.len() == 0 <==> r == Err::<&str, RequestError>(
            RequestError::NoMessages,
        ),
        chat_request.messages@.len() > 0 && !is_user_role(chat_request.messages@.last()@.role)
            <==> r == Err::<&str, RequestError>(RequestError::LastMessageNotUser),
        r is Ok ==> r->Ok_0@ == chat_request.messages@.last()@.content,
{
    let n = chat_request.messages.len();
    if n == 0 {
        return Err(RequestError::NoMessages);
    }
    let last = &chat_request.messages[n - 1];
    if last.is_user() {
        Ok(last.content.as_str())
    } else {
        Err(RequestError::LastMessageNotUser)
    }
}

pub open spec fn digit_char(d: nat) -> char {
    if d == 0 {
        '0'
    } else if d == 1 {
        '1'
    } else if d == 2 {
        '2'
    } else if d == 3 {
        '3'
    } else if d == 4 {
        '4'
    } else if d == 5 {
        '5'
    } else if d == 6 {
        '6'
    } else if d == 7 {
        '7'
    } else if d == 8 {
        '8'
    } else {
        '9'
    }
}

/// Decimal notation of a natural number, without leading zeros.
pub open spec fn decimal(n: nat) -> Seq<char>
    decreases n,
{
    if n < 10 {
        seq![digit_char(n)]
    } else {
        decimal(n / 10).push(digit_char(n % 10))
    }
}

fn digit_text(d: usize) -> (r: &'static str)
    requires
        d < 10,
    ensures
        r@ == seq![digit_char(d as nat)],
{
    proof {
        reveal_strlit("0");
        reveal_strlit("1");
        reveal_strlit("2");
        reveal_strlit("3");
        reveal_strlit("4");
        reveal_strlit("5");
        reveal_strlit("6");
        reveal_strlit("7");
        reveal_strlit("8");
        reveal_strlit("9");
    }
    if d == 0 {
        "0"
    } else if d == 1 {
        "1"
    } else if d == 2 {
        "2"
    } else if d == 3 {
        "3"
    } else if d == 4 {
        "4"
    } else if d == 5 {
        "5"
    } else if d == 6 {
        "6"
    } else if d == 7 {
        "7"
    } else if d == 8 {
        "8"
    } else {
        "9"
    }
}

/// The decimal notation of `n`.
pub fn decimal_text(n: usize) -> (r: String)
    ensures
        r@ == decimal(n as nat),
    decreases n,
{
    if n < 10 {
        digit_text(n).to_string()
    } else {
        let head = decimal_text(n / 10);
        head.concat(digit_text(n % 10))
    }
}

pub open spec fn oversize_text(count: nat, limit: nat) -> Seq<char> {
    "Your last message is too long. It contains approximately "@ + decimal(count)
        + " tokens, which exceeds the maximum limit of "@ + decimal(limit)
        + ". Please shorten your message."@
}

/// The synthetic reply to an oversize last message: one assistant choice,
/// finished for length, that states the measured and the allowed token counts.
pub open spec fn is_oversize_reply(r: ChatResponse, count: nat, limit: nat) -> bool {
    &&& r.id is None && r.object is None && r.created is None && r.model is None
    &&& r.usage is None
    &&& r.choices@.len() == 1
    &&& r.choices@[0].index == 0
    &&& r.choices@[0].finish_reason@ == "length"@
    &&& r.choices@[0].message@.role == "assistant"@
    &&& r.choices@[0].message@.content == oversize_text(count, limit)
}

/// Answers in-band when the last message alone exceeds the model's input
/// limit; `None` when it fits.
pub fn is_last_message_too_big(last_message: &Message, model: &ModelInfo) -> (r: Option<
    ChatResponse,
>)
    ensures
        capped(message_tokens(last_message@)) <= model.input_tokens <==> r is None,
        r matches Some(resp) ==> is_oversize_reply(
            resp,
            capped(message_tokens(last_message@)) as nat,
            model.input_tokens as nat,
        ),
{
    let limit = model.input_tokens;
    let count = count_single_message_tokens(last_message);
    if count <= limit {
        return None;
    }
    let mut content = "Your last message is too long. It contains approximately ".to_string();
    let count_text = decimal_text(count);
    content.append(count_text.as_str());
    content.append(" tokens, which exceeds the maximum limit of ");
    let limit_text = decimal_text(limit);
    content.append(limit_text.as_str());
    content.append(". Please shorten your message.");
    let message = Message { role: "assistant".to_string(), content };
    let choice = Choice { message, finish_reason: "length".to_string(), index: 0 };
    Some(
        ChatResponse {
            id: None,
            object: None,
            created: None,
            model: None,
            usage: None,
            choices: vec![choice],
        },
    )
}

} // verus!
