use vstd::prelude::*;

verus! {

/// The instructions the chat model is given before the conversation: it
/// is to answer with song suggestions written `<SONG>title</SONG>`.
pub const SYSTEM_MESSGE: &'static str = r#"
You are music bot CringeRadio which always answers to questions with song suggestions. 
It is important that the song suggestions are tagged in following way:

<SONG>despacito</SONG>
<SONG>enimem rapgod</SONG>

Remember to tag the song suggestions with <SONG> and </SONG> tags !!
You need to use this consistent format so i can parse the song suggestions from the text.
Give only one song suggestion per message.
"#;

/// The address of the chat completion service.
pub const COMPLETIONS_URL: &'static str = "https://api.openai.com/v1/chat/completions";

/// The chat model asked.
pub const CHAT_MODEL: &'static str = "gpt-3.5-turbo";

/// A character may stand in an HTTP header value unless it is an ASCII
/// control character (0..=31 or 127) other than the tab.
pub open spec fn header_char_ok(c: char) -> bool {
    (c as u32 >= 32 && c as u32 != 127) || c == '\t'
}

/// Every character of `s` may stand in an HTTP header value.
pub open spec fn header_value_ok(s: Seq<char>) -> bool {
    forall|i: int| 0 <= i < s.len() ==> header_char_ok(#[trigger] s[i])
}

/// Calls `reqwest::header::HeaderValue::from_str` and reports whether it
/// accepted the text. Its source accepts a text exactly when every byte
/// `b` of it has `b >= 32 && b != 127 || b == b'\t'`; the bytes of a
/// multi-byte character are all at least 128, so over characters this
/// is `header_value_ok`.
#[verifier::external_body]
fn header_value_accepts(s: &str) -> (r: bool)
    ensures
        r == header_value_ok(s@),
{
    reqwest::header::HeaderValue::from_str(s).is_ok()
}

/// One message of a chat.
#[derive(Clone, Debug)]
pub struct ChatMessage {
    pub role: String,
    pub content: String,
}

/// The mathematical value of a [`ChatMessage`].
pub struct ChatLine {
    pub role: Seq<char>,
    pub content: Seq<char>,
}

impl View for ChatMessage {
    type V = ChatLine;

    open spec fn view(&self) -> ChatLine {
        ChatLine { role: self.role@, content: self.content@ }
    }
}

pub open spec fn lines(v: Seq<ChatMessage>) -> Seq<ChatLine> {
    v.map_values(|m: ChatMessage| m@)
}

/// What is sent to the chat completion service.
#[derive(Debug)]
pub struct ChatCompletionRequest {
    pub model: String,
    pub messages: Vec<ChatMessage>,
}

/// One answer of the chat model.
pub struct CompletionChoice {
    pub index: i64,
    pub message: ChatMessage,
    pub finish_reason: String,
}

/// What an answer cost.
pub struct CompletionUsage {
    pub prompt_tokens: i64,
    pub completion_tokens: i64,
    pub total_tokens: i64,
}

/// What the chat completion service answers.
pub struct CompletionResponse {
    pub id: String,
    pub object: String,
    pub created: i64,
    pub choices: Vec<CompletionChoice>,
    pub usage: CompletionUsage,
}

/// Why a chat completion cannot be asked for or used.
#[derive(Debug, PartialEq, Eq, Structural)]
pub enum OpenaiError {
    /// No key for the service was given.
    NoApiKey,
    /// The key cannot stand in the `Authorization` header.
    InvalidHeader,
    /// The service answered with no choice.
    NoChoices,
}

impl OpenaiError {
    /// The text of the error.
    pub fn describe(&self) -> (r: String)
        ensures
            r@ == match self {
                OpenaiError::NoApiKey => "No API key"@,
                OpenaiError::InvalidHeader => "failed to parse header value"@,
                OpenaiError::NoChoices => "No choices in response"@,
            },
    {
        match self {
            OpenaiError::NoApiKey => String::from_str("No API key"),
            OpenaiError::InvalidHeader => String::from_str("failed to parse header value"),
            OpenaiError::NoChoices => String::from_str("No choices in response"),
        }
    }
}

/// A request to the chat completion service, ready to be sent.
pub struct ChatRequest {
    pub endpoint: String,
    pub authorization: String,
    pub content_type: String,
    pub body: ChatCompletionRequest,
}

/// The mathematical value of a [`ChatRequest`].
pub struct ChatRequestView {
    pub endpoint: Seq<char>,
    pub authorization: Seq<char>,
    pub content_type: Seq<char>,
    pub model: Seq<char>,
    pub messages: Seq<ChatLine>,
}

impl View for ChatRequest {
    type V = ChatRequestView;

    open spec fn view(&self) -> ChatRequestView {
        ChatRequestView {
            endpoint: self.endpoint@,
            authorization: self.authorization@,
            content_type: self.content_type@,
            model: self.body.model@,
            messages: lines(self.body.messages@),
        }
    }
}

/// The `Authorization` header for a key.
pub open spec fn bearer(key: Seq<char>) -> Seq<char> {
    "Bearer "@ + key
}

/// The message that tells the model how to answer.
pub open spec fn system_line() -> ChatLine {
    ChatLine { role: "system"@, content: SYSTEM_MESSGE@ }
}

/// The request that asks, with `key`, for the model's answer to `history`.
pub open spec fn chat_request_for(key: Seq<char>, history: Seq<ChatLine>) -> ChatRequestView {
    ChatRequestView {
        endpoint: COMPLETIONS_URL@,
        authorization: bearer(key),
        content_type: "application/json"@,
        model: CHAT_MODEL@,
        messages: seq![system_line()] + history,
    }
}

/// A copy of a chat message.
fn copy_message(m: &ChatMessage) -> (r: ChatMessage)
    ensures
        r@ == m@,
{
    ChatMessage { role: m.role.clone(), content: m.content.clone() }
}

/// A client of the chat completion service.
pub struct Openai {
    pub apikey: String,
}

impl Openai {
    pub fn new(apikey: &str) -> (r: Openai)
        ensures
            r.apikey@ == apikey@,
    {
        Openai { apikey: String::from_str(apikey) }
    }

    /// The request that asks for the model's answer to `messages`, which
    /// the system message precedes. Fails where no key was given, or the
    /// key cannot stand in a header.
    pub fn prepare_chat_completion(&self, messages: &Vec<ChatMessage>) -> (r: Result<
        ChatRequest,
        OpenaiError,
    >)
        ensures
            match r {
                Ok(req) => {
                    &&& self.apikey@.len() > 0
                    &&& header_value_ok(bearer(self.apikey@))
                    &&& req@ == chat_request_for(self.apikey@, lines(messages@))
                },
                Err(e) => if self.apikey@.len() == 0 {
                    e == OpenaiError::NoApiKey
                } else {
                    e == OpenaiError::InvalidHeader && !header_value_ok(bearer(self.apikey@))
                },
            },
    {
        if self.apikey.as_str().is_empty() {
            return Err(OpenaiError::NoApiKey);
        }
        let mut all: Vec<ChatMessage> = Vec::new();
        all.push(
            ChatMessage {
                role: String::from_str("system"),
                content: String::from_str(SYSTEM_MESSGE),
            },
        );
        let mut i: usize = 0;
        while i < messages.len()
            invariant
                i <= messages.len(),
                lines(all@) == seq![system_line()] + lines(messages@.take(i as int)),
            decreases messages.len() - i,
        {
            let ghost before = all@;
            all.push(copy_message(&messages[i]));
            assert(lines(all@) =~= lines(before) + seq![messages@[i as int]@]);
            assert(messages@.take(i + 1) =~= messages@.take(i as int) + seq![messages@[i as int]]);
            assert(lines(messages@.take(i + 1)) =~= lines(messages@.take(i as int)) + seq![
                messages@[i as int]@,
            ]);
            i = i + 1;
        }
        assert(messages@.take(messages.len() as int) =~= messages@);
        let mut authorization = String::from_str("Bearer ");
        authorization.append(self.apikey.as_str());
        if !header_value_accepts(authorization.as_str()) {
            return Err(OpenaiError::InvalidHeader);
        }
        let content_type = String::from_str("application/json");
        proof {
            reveal_strlit("application/json");
        }
        if !header_value_accepts(content_type.as_str()) {
            return Err(OpenaiError::InvalidHeader);
        }
        Ok(
            ChatRequest {
                endpoint: String::from_str(COMPLETIONS_URL),
                authorization,
                content_type,
                body: ChatCompletionRequest { model: String::from_str(CHAT_MODEL), messages: all },
            },
        )
    }
}

/// The text of the model's first answer; fails where there is none.
pub fn completion_text(response: &CompletionResponse) -> (r: Result<String, OpenaiError>)
    ensures
        match r {
            Ok(t) => response.choices@.len() > 0 && t@ == response.choices@[0].message.content@,
            Err(e) => response.choices@.len() == 0 && e == OpenaiError::NoChoices,
        },
{
    if response.choices.len() == 0 {
        return Err(OpenaiError::NoChoices);
    }
    Ok(response.choices[0].message.content.clone())
}

/// The request asks the model with the system message first and then the
/// conversation given, each message with its own role and text, in
/// order; it carries the key as a bearer token and JSON as its content
/// type.
pub proof fn law_request_keeps_conversation(key: Seq<char>, msgs: Seq<ChatMessage>)
    ensures
        chat_request_for(key, lines(msgs)).messages.len() == msgs.len() + 1,
        chat_request_for(key, lines(msgs)).messages[0].role == "system"@,
        chat_request_for(key, lines(msgs)).messages[0].content == SYSTEM_MESSGE@,
        forall|i: int|
            0 <= i < msgs.len() ==> (#[trigger] chat_request_for(key, lines(msgs)).messages[i
                + 1]).role == msgs[i].role@ && chat_request_for(key, lines(msgs)).messages[i
                + 1].content == msgs[i].content@,
        chat_request_for(key, lines(msgs)).authorization == "Bearer "@ + key,
        chat_request_for(key, lines(msgs)).content_type == "application/json"@,
        chat_request_for(key, lines(msgs)).model == CHAT_MODEL@,
        chat_request_for(key, lines(msgs)).endpoint == COMPLETIONS_URL@,
{
    let m = chat_request_for(key, lines(msgs)).messages;
    assert forall|i: int| 0 <= i < msgs.len() implies (#[trigger] m[i + 1]).role == msgs[i].role@
        && m[i + 1].content == msgs[i].content@ by {
        assert(m[i + 1] == lines(msgs)[i]);
    }
}

/// A header value may hold the tab, the space, visible ASCII and any
/// character beyond ASCII, but no other ASCII control character.
pub proof fn law_header_characters(c: char)
    ensures
        (c as u32) < 32 && c != '\t' ==> !header_char_ok(c),
        c as u32 == 127 ==> !header_char_ok(c),
        (c as u32) >= 128 ==> header_char_ok(c),
        32 <= (c as u32) < 127 ==> header_char_ok(c),
        header_char_ok('\t'),
        !header_char_ok('\n'),
{
}

} // verus!
