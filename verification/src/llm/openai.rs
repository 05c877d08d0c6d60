//! The wire format of an OpenAI-compatible chat-completion endpoint: the
//! request that goes out, and the event stream that comes back.

use crate::llm::{ConversationView, LLMConversation, ROLE_SYSTEM};
use crate::text::{after, has_prefix, lines, lines_of, same_text, skip_chars, starts_with, trim, trimmed};
use vstd::prelude::*;

verus! {

/// How to reach the endpoint.
#[derive(Debug)]
pub struct OpenAIConfig {
    pub api_key: String,
    pub model: String,
    pub base_url: String,
    /// The most tokens one reply may have.
    pub max_tokens: u32,
}

/// One message of a request.
#[derive(Debug)]
pub struct RequestMessage {
    pub role: String,
    pub content: String,
}

/// The body of a chat-completion request.
#[derive(Debug)]
pub struct ChatCompletionRequest {
    pub model: String,
    pub messages: Vec<RequestMessage>,
    pub stream: bool,
    pub max_tokens: u32,
}

/// One event of the reply stream.
#[derive(Debug)]
pub struct ChatCompletionResponse {
    pub choices: Vec<Choice>,
}

/// One alternative of an event.
#[derive(Debug)]
pub struct Choice {
    pub delta: Option<Delta>,
}

/// What an event adds to the reply.
#[derive(Debug)]
pub struct Delta {
    pub content: Option<String>,
}

/// A [`RequestMessage`] as plain values.
pub struct RequestMessageView {
    pub role: Seq<char>,
    pub content: Seq<char>,
}

impl View for RequestMessage {
    type V = RequestMessageView;

    open spec fn view(&self) -> RequestMessageView {
        RequestMessageView { role: self.role@, content: self.content@ }
    }
}

impl DeepView for RequestMessage {
    type V = RequestMessageView;

    open spec fn deep_view(&self) -> RequestMessageView {
        self@
    }
}

/// The endpoint that is used where a configuration names none.
pub fn default_base_url() -> (url: String)
    ensures
        url@ == "https://api.openai.com/v1"@,
{
    String::from_str("https://api.openai.com/v1")
}

/// The token limit that is used where a configuration names none.
pub fn default_max_tokens() -> (limit: u32)
    ensures
        limit == 2048,
{
    2048
}

/// The messages of a request: the system prompt first unless it is empty,
/// then the conversation, turn by turn.
pub open spec fn request_messages(
    system_prompt: Seq<char>,
    conversation: Seq<ConversationView>,
) -> Seq<RequestMessageView> {
    let turns = conversation.map_values(
        |turn: ConversationView| RequestMessageView { role: turn.role, content: turn.content },
    );
    if system_prompt.len() == 0 {
        turns
    } else {
        seq![RequestMessageView { role: ROLE_SYSTEM@, content: system_prompt }] + turns
    }
}

/// Builds the messages of a request.
pub fn build_messages(system_prompt: &str, conversation: &Vec<LLMConversation>) -> (messages: Vec<
    RequestMessage,
>)
    ensures
        messages.deep_view() == request_messages(system_prompt@, conversation.deep_view()),
{
    let mut messages: Vec<RequestMessage> = Vec::new();
    let ghost head: Seq<RequestMessageView> = if system_prompt@.len() == 0 {
        Seq::empty()
    } else {
        seq![RequestMessageView { role: ROLE_SYSTEM@, content: system_prompt@ }]
    };
    let ghost turns = conversation.deep_view().map_values(
        |turn: ConversationView| RequestMessageView { role: turn.role, content: turn.content },
    );
    if system_prompt.unicode_len() != 0 {
        messages.push(
            RequestMessage {
                role: String::from_str(ROLE_SYSTEM),
                content: String::from_str(system_prompt),
            },
        );
    }
    assert(messages.deep_view() =~= head);
    let mut i: usize = 0;
    while i < conversation.len()
        invariant
            i <= conversation.len(),
            turns.len() == conversation.len(),
            turns == conversation.deep_view().map_values(
                |turn: ConversationView| RequestMessageView {
                    role: turn.role,
                    content: turn.content,
                },
            ),
            messages.deep_view() == head + turns.take(i as int),
        decreases conversation.len() - i,
    {
        let ghost before = messages.deep_view();
        let turn = &conversation[i];
        let message = RequestMessage {
            role: turn.role.clone(),
            content: String::from_str(turn.content.as_str()),
        };
        assert(message@ == turns[i as int]);
        messages.push(message);
        assert(messages.deep_view() =~= before.push(turns[i as int]));
        assert(before.push(turns[i as int]) =~= head + turns.take(i + 1));
        i += 1;
    }
    assert(turns.take(conversation.len() as int) =~= turns);
    assert(system_prompt@.len() == 0 ==> head + turns =~= turns);
    messages
}

impl OpenAIConfig {
    /// Builds the body of the request that asks for a streamed reply to
    /// `conversation` under `system_prompt`.
    pub fn build_request(&self, system_prompt: &str, conversation: &Vec<LLMConversation>) -> (request:
        ChatCompletionRequest)
        ensures
            request.model@ == self.model@,
            request.messages.deep_view() == request_messages(
                system_prompt@,
                conversation.deep_view(),
            ),
            request.stream,
            request.max_tokens == self.max_tokens,
    {
        ChatCompletionRequest {
            model: self.model.clone(),
            messages: build_messages(system_prompt, conversation),
            stream: true,
            max_tokens: self.max_tokens,
        }
    }

    /// The address the request is posted to.
    pub fn completions_url(&self) -> (url: String)
        ensures
            url@ == self.base_url@ + "/chat/completions"@,
    {
        let mut url = self.base_url.clone();
        url.append("/chat/completions");
        url
    }

    /// The value of the `Authorization` header.
    pub fn authorization(&self) -> (value: String)
        ensures
            value@ == "Bearer "@ + self.api_key@,
    {
        let mut value = String::from_str("Bearer ");
        value.append(self.api_key.as_str());
        value
    }
}

/// The failure that is reported when the endpoint answers with an error
/// status and the text `error_text`.
pub fn api_error(error_text: &str) -> (msg: String)
    ensures
        msg@ == "OpenAI API error: "@ + error_text@,
{
    let mut msg = String::from_str("OpenAI API error: ");
    msg.append(error_text);
    msg
}

/// What one line of the event stream carries: the text after `data: `,
/// unless the line does not begin so or the text is the end mark `[DONE]`
/// with white space around it.
pub open spec fn line_payload(line: Seq<char>) -> Option<Seq<char>> {
    if has_prefix(line, "data: "@) {
        let payload = after(line, "data: "@.len() as int);
        if trimmed(payload) == "[DONE]"@ {
            None
        } else {
            Some(payload)
        }
    } else {
        None
    }
}

/// The payloads of `lines`, in order.
pub open spec fn payloads_of(lines: Seq<Seq<char>>) -> Seq<Seq<char>>
    decreases lines.len(),
{
    if lines.len() == 0 {
        Seq::empty()
    } else {
        match line_payload(lines.last()) {
            Some(payload) => payloads_of(lines.drop_last()).push(payload),
            None => payloads_of(lines.drop_last()),
        }
    }
}

/// Reads the payload of one line of the event stream.
pub fn parse_line(line: &str) -> (payload: Option<String>)
    ensures
        payload.deep_view() == line_payload(line@),
{
    if starts_with(line, "data: ") {
        let payload = skip_chars(line, "data: ".unicode_len());
        let inner = trim(payload.as_str());
        if same_text(inner.as_str(), "[DONE]") {
            None
        } else {
            Some(payload)
        }
    } else {
        None
    }
}

/// Reads the payloads out of a piece of the event stream: one for each
/// line that begins with `data: `, but for the end mark.
pub fn data_payloads(text: &str) -> (payloads: Vec<String>)
    ensures
        payloads.deep_view() == payloads_of(lines_of(text@)),
{
    let all = lines(text);
    let mut payloads: Vec<String> = Vec::new();
    let mut i: usize = 0;
    assert(all.deep_view().take(0) =~= Seq::<Seq<char>>::empty());
    while i < all.len()
        invariant
            i <= all.len(),
            payloads.deep_view() == payloads_of(all.deep_view().take(i as int)),
        decreases all.len() - i,
    {
        let ghost upto = all.deep_view().take(i + 1);
        let ghost before = payloads.deep_view();
        assert(upto.drop_last() =~= all.deep_view().take(i as int));
        assert(upto.last() == all[i as int]@);
        match parse_line(all[i].as_str()) {
            Some(payload) => {
                payloads.push(payload);
                assert(payloads.deep_view() =~= before.push(payload@));
            },
            None => {},
        }
        i += 1;
    }
    assert(all.deep_view().take(all.len() as int) =~= all.deep_view());
    payloads
}

/// What an event adds to the reply: the content of the delta of its first
/// choice, if it has all three.
pub open spec fn delta_content(choices: Seq<Option<Option<Seq<char>>>>) -> Option<Seq<char>> {
    if choices.len() == 0 {
        None
    } else {
        match choices[0] {
            Some(content) => content,
            None => None,
        }
    }
}

impl View for ChatCompletionResponse {
    /// For each choice its delta, and for each delta its content.
    type V = Seq<Option<Option<Seq<char>>>>;

    open spec fn view(&self) -> Seq<Option<Option<Seq<char>>>> {
        Seq::new(
            self.choices.len() as nat,
            |i: int|
                match self.choices[i].delta {
                    Some(delta) => Some(delta.content.deep_view()),
                    None => None,
                },
        )
    }
}

impl ChatCompletionResponse {
    /// Reads what this event adds to the reply.
    pub fn first_content(&self) -> (content: Option<String>)
        ensures
            content.deep_view() == delta_content(self@),
    {
        if self.choices.len() == 0 {
            return None;
        }
        match &self.choices[0].delta {
            Some(delta) => match &delta.content {
                Some(text) => Some(text.clone()),
                None => None,
            },
            None => None,
        }
    }
}

/// The text that a piece of the event stream adds to the reply: what its
/// events carry, joined, where an event that could not be read or carries
/// nothing adds nothing.
pub open spec fn piece_text(contents: Seq<Option<Seq<char>>>) -> Seq<char>
    decreases contents.len(),
{
    if contents.len() == 0 {
        Seq::empty()
    } else {
        match contents.last() {
            Some(text) => piece_text(contents.drop_last()) + text,
            None => piece_text(contents.drop_last()),
        }
    }
}

/// Joins what the events of one piece of the stream carry. `None` says
/// that the piece adds nothing, so no chunk is to be yielded for it.
pub fn chunk_text(contents: &Vec<Option<String>>) -> (chunk: Option<String>)
    ensures
        chunk.deep_view() == if piece_text(contents.deep_view()).len() == 0 {
            None
        } else {
            Some(piece_text(contents.deep_view()))
        },
{
    let mut text = String::new();
    let mut i: usize = 0;
    assert(contents.deep_view().take(0) =~= Seq::<Option<Seq<char>>>::empty());
    while i < contents.len()
        invariant
            i <= contents.len(),
            text@ == piece_text(contents.deep_view().take(i as int)),
        decreases contents.len() - i,
    {
        let ghost upto = contents.deep_view().take(i + 1);
        assert(upto.drop_last() =~= contents.deep_view().take(i as int));
        assert(upto.last() == contents[i as int].deep_view());
        match &contents[i] {
            Some(part) => {
                text.append(part.as_str());
            },
            None => {},
        }
        i += 1;
    }
    assert(contents.deep_view().take(contents.len() as int) =~= contents.deep_view());
    if text.as_str().unicode_len() == 0 {
        None
    } else {
        Some(text)
    }
}

/// What each event of a piece of the stream adds, where `None` stands for
/// an event that could not be read.
pub open spec fn event_contents(events: Seq<Option<ChatCompletionResponse>>) -> Seq<
    Option<Seq<char>>,
> {
    events.map_values(
        |event: Option<ChatCompletionResponse>|
            match event {
                Some(response) => delta_content(response@),
                None => None,
            },
    )
}

/// Reads the chunk that one piece of the event stream adds to the reply
/// out of its events, where `None` stands for an event that could not be
/// read. `None` says that the piece adds nothing.
pub fn stream_chunk(events: &Vec<Option<ChatCompletionResponse>>) -> (chunk: Option<String>)
    ensures
        chunk.deep_view() == if piece_text(
            event_contents(events@),
        ).len() == 0 {
            None
        } else {
            Some(
                piece_text(
                    event_contents(events@),
                ),
            )
        },
{
    let ghost all = event_contents(events@);
    let mut contents: Vec<Option<String>> = Vec::new();
    let mut i: usize = 0;
    while i < events.len()
        invariant
            i <= events.len(),
            all == event_contents(events@),
            contents.deep_view() == all.take(i as int),
        decreases events.len() - i,
    {
        let ghost before = contents.deep_view();
        let content = match &events[i] {
            Some(event) => event.first_content(),
            None => None,
        };
        assert(content.deep_view() == all[i as int]);
        contents.push(content);
        assert(contents.deep_view() =~= before.push(all[i as int]));
        assert(before.push(all[i as int]) =~= all.take(i + 1));
        i += 1;
    }
    assert(all.take(events.len() as int) =~= all);
    chunk_text(&contents)
}

} // verus!
