//! The bodies of the requests sent to the OpenAI endpoints and the reading
//! of their replies. Sending, receiving and the JSON encoding are left to the
//! caller.

use vstd::prelude::*;
use vstd::string::*;

use crate::random::{draw_below, drawn_below};

verus! {

/// Temperatures are drawn from 0.0 to 0.8 in steps of a tenth; this is the
/// number of steps to choose from.
pub const TEMPERATURE_STEPS: usize = 9;

/// One message of a chat conversation.
pub struct ChatMessage {
    pub role: String,
    pub content: String,
}

/// A request to the chat completion endpoint. The sampling temperature is
/// held in tenths: `temperature_tenths / 10`.
pub struct ChatRequest {
    pub model: String,
    pub messages: Vec<ChatMessage>,
    pub temperature_tenths: u32,
}

/// A request to the (older) text completion endpoint, temperature in tenths.
pub struct CompletionRequest {
    pub model: String,
    pub prompt: String,
    pub temperature_tenths: u32,
    pub max_tokens: i16,
}

/// A request to the image generation endpoint.
pub struct ImageRequest {
    pub prompt: String,
    pub size: String,
    pub response_format: String,
}

/// Messages at even positions (0, 2, 4, ...) come from the user, the others
/// are the assistant's replies.
pub open spec fn role_text(index: int) -> Seq<char> {
    if index % 2 == 0 {
        "user"@
    } else {
        "assistant"@
    }
}

/// `messages` is the conversation `earlier`, with roles alternating from the
/// user.
pub open spec fn is_conversation(messages: Seq<ChatMessage>, earlier: Seq<String>) -> bool {
    &&& messages.len() == earlier.len()
    &&& forall|i: int|
        0 <= i < messages.len() ==> {
            &&& (#[trigger] messages[i]).role@ == role_text(i)
            &&& messages[i].content@ == earlier[i]@
        }
}

/// The role of the message at `index`.
pub fn role_for(index: usize) -> (res: String)
    ensures
        res@ == role_text(index as int),
{
    if index % 2 == 0 {
        String::from_str("user")
    } else {
        String::from_str("assistant")
    }
}

/// Turns the texts of a conversation into chat messages.
pub fn chat_messages(earlier_messages: &[String]) -> (res: Vec<ChatMessage>)
    ensures
        is_conversation(res@, earlier_messages@),
{
    let mut res: Vec<ChatMessage> = Vec::new();
    let n = earlier_messages.len();
    let mut i: usize = 0;
    while i < n
        invariant
            n == earlier_messages@.len(),
            i <= n,
            res@.len() == i,
            forall|j: int|
                0 <= j < i ==> {
                    &&& (#[trigger] res@[j]).role@ == role_text(j)
                    &&& res@[j].content@ == earlier_messages@[j]@
                },
        decreases n - i,
    {
        let msg = ChatMessage { role: role_for(i), content: earlier_messages[i].clone() };
        res.push(msg);
        i = i + 1;
    }
    res
}

/// The chat request for a conversation at a given temperature.
pub fn chat_request_at(earlier_messages: &[String], temperature_tenths: u32) -> (res: ChatRequest)
    ensures
        res.model@ == "gpt-4"@,
        is_conversation(res.messages@, earlier_messages@),
        res.temperature_tenths == temperature_tenths,
{
    ChatRequest {
        model: String::from_str("gpt-4"),
        messages: chat_messages(earlier_messages),
        temperature_tenths,
    }
}

/// The chat request for a conversation, at a temperature drawn by chance.
pub fn chat_request(earlier_messages: &[String]) -> (res: ChatRequest)
    ensures
        res.model@ == "gpt-4"@,
        is_conversation(res.messages@, earlier_messages@),
        res.temperature_tenths < TEMPERATURE_STEPS,
        drawn_below(TEMPERATURE_STEPS, res.temperature_tenths as usize),
{
    let t = draw_below(TEMPERATURE_STEPS);
    chat_request_at(earlier_messages, t as u32)
}

/// The text completion request for a prompt at a given temperature.
pub fn completion_request_at(prompt: &str, temperature_tenths: u32) -> (res: CompletionRequest)
    ensures
        res.model@ == "text-davinci-003"@,
        res.prompt@ == prompt@,
        res.temperature_tenths == temperature_tenths,
        res.max_tokens == 3500,
{
    CompletionRequest {
        model: String::from_str("text-davinci-003"),
        prompt: String::from_str(prompt),
        temperature_tenths,
        max_tokens: 3500,
    }
}

/// The text completion request for a prompt, at a temperature drawn by chance.
pub fn completion_request(prompt: &str) -> (res: CompletionRequest)
    ensures
        res.model@ == "text-davinci-003"@,
        res.prompt@ == prompt@,
        res.temperature_tenths < TEMPERATURE_STEPS,
        res.max_tokens == 3500,
        drawn_below(TEMPERATURE_STEPS, res.temperature_tenths as usize),
{
    let t = draw_below(TEMPERATURE_STEPS);
    completion_request_at(prompt, t as u32)
}

/// The request for one square 1024 by 1024 picture, returned as a URL.
pub fn image_request(prompt: &str) -> (res: ImageRequest)
    ensures
        res.prompt@ == prompt@,
        res.size@ == "1024x1024"@,
        res.response_format@ == "url"@,
{
    ImageRequest {
        prompt: String::from_str(prompt),
        size: String::from_str("1024x1024"),
        response_format: String::from_str("url"),
    }
}

/// The value of the `Authorization` header for an API token.
pub fn authorization_header(api_token: &str) -> (res: String)
    ensures
        res@ == "Bearer "@ + api_token@,
{
    let mut res = String::from_str("Bearer ");
    res.append(api_token);
    res
}

/// The answer taken from a reply: the text of its first choice. Every
/// endpoint's reply lists its choices; the first one is used.
pub fn first_choice(choices: &Vec<String>) -> (res: String)
    requires
        choices@.len() > 0,
    ensures
        res@ == choices@[0]@,
{
    choices[0].clone()
}

} // verus!
