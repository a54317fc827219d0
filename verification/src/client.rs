//! The completion client: the request that is sent to the completion service,
//! and the answer that is taken from its reply.

use crate::json::element_of;
use crate::json::json_element;
use crate::json::json_error_text;
use crate::json::json_member;
use crate::json::json_parsed;
use crate::json::json_rendered;
use crate::json::json_text;
use crate::json::json_tree;
use crate::json::JsonTree;
use crate::json::member_of;
use crate::json::parse_json;
use crate::json::render_json;
use crate::json::text_of;
use crate::request::QuerySetting;
use vstd::prelude::*;
use vstd::string::StringExecFns;
use vstd::string::StringSliceAdditionalSpecFns;

verus! {

/// Where completions are asked for.
pub const COMPLETIONS_URL: &'static str = "https://api.openai.com/v1/chat/completions";

/// Who speaks in a message.
#[derive(Debug, Clone, Copy, PartialEq, Eq, Structural)]
pub enum Role {
    User,
    Assistant,
}

impl Role {
    /// The name of the role in the service's protocol.
    pub fn name(&self) -> (name: &'static str)
        ensures
            name@ == match *self {
                Role::User => "user"@,
                Role::Assistant => "assistant"@,
            },
    {
        match self {
            Role::User => "user",
            Role::Assistant => "assistant",
        }
    }
}

/// One message of a completion request.
#[derive(Debug, Clone, PartialEq, Eq)]
pub struct Message {
    pub role: Role,
    pub content: String,
}

/// A message as a value.
pub struct MessageView {
    pub role: Role,
    pub content: Seq<char>,
}

impl View for Message {
    type V = MessageView;

    open spec fn view(&self) -> MessageView {
        MessageView { role: self.role, content: self.content@ }
    }
}

/// The body of a completion request.
#[derive(Debug, Clone, PartialEq, Eq)]
pub struct RequestBody {
    pub model: String,
    pub messages: Vec<Message>,
    pub seed: i64,
    pub max_completion_tokens: Option<u32>,
}

/// The body of a completion request as a value.
pub struct BodyView {
    pub model: Seq<char>,
    pub messages: Seq<MessageView>,
    pub seed: i64,
    pub max_completion_tokens: Option<u32>,
}

/// The views of a sequence of messages.
pub open spec fn message_views(messages: Seq<Message>) -> Seq<MessageView> {
    Seq::new(messages.len(), |i: int| messages[i]@)
}

impl View for RequestBody {
    type V = BodyView;

    open spec fn view(&self) -> BodyView {
        BodyView {
            model: self.model@,
            messages: message_views(self.messages@),
            seed: self.seed,
            max_completion_tokens: self.max_completion_tokens,
        }
    }
}

/// A header of a request: its name and its value.
#[derive(Debug, Clone, PartialEq, Eq)]
pub struct Header {
    pub name: String,
    pub value: String,
}

/// A header as a value.
pub struct HeaderView {
    pub name: Seq<char>,
    pub value: Seq<char>,
}

impl View for Header {
    type V = HeaderView;

    open spec fn view(&self) -> HeaderView {
        HeaderView { name: self.name@, value: self.value@ }
    }
}

/// The views of a sequence of headers.
pub open spec fn header_views(headers: Seq<Header>) -> Seq<HeaderView> {
    Seq::new(headers.len(), |i: int| headers[i]@)
}

/// A request to the completion service, ready to be sent.
#[derive(Debug, Clone, PartialEq, Eq)]
pub struct CompletionCall {
    pub url: String,
    pub headers: Vec<Header>,
    pub body: RequestBody,
}

/// A request to the completion service as a value.
pub struct CallView {
    pub url: Seq<char>,
    pub headers: Seq<HeaderView>,
    pub body: BodyView,
}

impl View for CompletionCall {
    type V = CallView;

    open spec fn view(&self) -> CallView {
        CallView { url: self.url@, headers: header_views(self.headers@), body: self.body@ }
    }
}

/// The value of the header that carries the credential.
pub open spec fn bearer(api_key: Seq<char>) -> Seq<char> {
    seq!['B', 'e', 'a', 'r', 'e', 'r', ' '] + api_key
}

/// The views of a sequence of texts.
pub open spec fn texts(inputs: Seq<&str>) -> Seq<Seq<char>> {
    Seq::new(inputs.len(), |i: int| inputs[i]@)
}

/// The messages that carry `inputs`, in order, each said by the user.
pub open spec fn user_message_views(inputs: Seq<Seq<char>>) -> Seq<MessageView> {
    Seq::new(inputs.len(), |i: int| MessageView { role: Role::User, content: inputs[i] })
}

/// The two headers of a completion request: the content type, then the
/// credential.
pub open spec fn common_headers(api_key: Seq<char>) -> Seq<HeaderView> {
    seq![
        HeaderView { name: "Content-Type"@, value: "application/json"@ },
        HeaderView { name: "Authorization"@, value: bearer(api_key) },
    ]
}

/// The request that asks for a completion of `inputs` with these settings.
pub open spec fn completion_call(
    api_key: Seq<char>,
    model: Seq<char>,
    seed: i64,
    limit: Option<u32>,
    inputs: Seq<Seq<char>>,
) -> CallView {
    CallView {
        url: COMPLETIONS_URL@,
        headers: common_headers(api_key),
        body: BodyView {
            model,
            messages: user_message_views(inputs),
            seed,
            max_completion_tokens: limit,
        },
    }
}

/// The messages that carry `inputs`, in order, each said by the user.
pub fn user_messages(inputs: &[&str]) -> (messages: Vec<Message>)
    ensures
        message_views(messages@) == user_message_views(texts(inputs@)),
{
    let mut messages: Vec<Message> = Vec::new();
    let mut i: usize = 0;
    while i < inputs.len()
        invariant
            i <= inputs.len(),
            messages.len() == i,
            forall|k: int|
                0 <= k < i ==> (#[trigger] messages[k])@ == (MessageView {
                    role: Role::User,
                    content: inputs[k]@,
                }),
        decreases inputs.len() - i,
    {
        messages.push(Message { role: Role::User, content: String::from_str(inputs[i]) });
        i += 1;
    }
    assert(message_views(messages@) =~= user_message_views(texts(inputs@)));
    messages
}

impl<'a> QuerySetting<'a> {
    /// The address and the headers that every completion request has.
    pub fn common_header(&self) -> (head: (String, Vec<Header>))
        ensures
            head.0@ == COMPLETIONS_URL@,
            header_views(head.1@) == common_headers(self.api_key@),
    {
        proof {
            reveal_strlit("Bearer ");
            assert("Bearer "@ =~= seq!['B', 'e', 'a', 'r', 'e', 'r', ' ']);
        }
        let mut credential = String::from_str("Bearer ");
        credential.append(self.api_key);
        let mut headers: Vec<Header> = Vec::new();
        headers.push(
            Header {
                name: String::from_str("Content-Type"),
                value: String::from_str("application/json"),
            },
        );
        headers.push(Header { name: String::from_str("Authorization"), value: credential });
        assert(header_views(headers@) =~= common_headers(self.api_key@));
        (String::from_str(COMPLETIONS_URL), headers)
    }

    /// The body that asks for a completion of `messages` under this setting.
    pub fn make_request_body(&self, messages: Vec<Message>) -> (body: RequestBody)
        ensures
            body.model@ == self.model@,
            body.messages == messages,
            body.seed == self.seed,
            body.max_completion_tokens == self.max_completion_tokens,
    {
        RequestBody {
            model: String::from_str(self.model),
            messages,
            seed: self.seed,
            max_completion_tokens: self.max_completion_tokens,
        }
    }

    /// The request that asks the completion service to answer
    /// `input_messages`: one call, all messages said by the user.
    pub fn query(&self, input_messages: &[&str]) -> (call: CompletionCall)
        ensures
            call@ == completion_call(
                self.api_key@,
                self.model@,
                self.seed,
                self.max_completion_tokens,
                texts(input_messages@),
            ),
    {
        let (url, headers) = self.common_header();
        let body = self.make_request_body(user_messages(input_messages));
        CompletionCall { url, headers, body }
    }
}

/// Why the completion service gave no reply that can be read.
#[derive(Debug, Clone, PartialEq, Eq)]
pub enum TransportError {
    /// The exchange with the service failed; the text says how.
    Network(String),
    /// The reply is no JSON document; the text says why.
    Envelope(String),
}

impl TransportError {
    /// What went wrong, in the words of whoever found it.
    pub fn reason(&self) -> (text: &str)
        ensures
            text@ == match *self {
                TransportError::Network(reason) => reason@,
                TransportError::Envelope(reason) => reason@,
            },
    {
        match self {
            TransportError::Network(reason) => reason.as_str(),
            TransportError::Envelope(reason) => reason.as_str(),
        }
    }
}

/// What stands before the printed reply where the reply has no answer.
pub open spec fn unexpected_prefix() -> Seq<char> {
    seq![
        '[',
        'U',
        'n',
        'e',
        'x',
        'p',
        'e',
        'c',
        't',
        'e',
        'd',
        ' ',
        'r',
        'e',
        's',
        'p',
        'o',
        'n',
        's',
        'e',
        ']',
        '\n',
    ]
}

/// The place of the answer in a reply: the content of the message of the
/// first choice.
pub open spec fn content_of(reply: JsonTree) -> JsonTree {
    member_of(
        member_of(element_of(member_of(reply, "choices"@), 0), "message"@),
        "content"@,
    )
}

/// The answer of a reply: the text at the answer's place where there is one;
/// otherwise the printed reply behind a note that it was not expected.
pub open spec fn answer_of(reply: JsonTree) -> Seq<char> {
    match text_of(content_of(reply)) {
        Some(text) => text,
        None => unexpected_prefix() + json_rendered(reply),
    }
}

/// The answer that a parsed reply holds. A reply of another shape than
/// expected is no failure: it is handed back in print.
pub fn answer_from_document(reply: &serde_json::Value) -> (answer: String)
    ensures
        answer@ == answer_of(json_tree(*reply)),
{
    let choices = json_member(reply, "choices");
    let first = json_element(choices, 0);
    let message = json_member(first, "message");
    let content = json_member(message, "content");
    match json_text(content) {
        Some(text) => text,
        None => {
            proof {
                reveal_strlit("[Unexpected response]\n");
                assert("[Unexpected response]\n"@ =~= unexpected_prefix());
            }
            let mut answer = String::from_str("[Unexpected response]\n");
            let printed = render_json(reply);
            answer.append(printed.as_str());
            answer
        },
    }
}

/// The answer in the text of a reply. It fails only where the text is no
/// JSON document.
pub fn answer_from_reply(reply: &str) -> (answer: Result<String, TransportError>)
    ensures
        match json_parsed(reply.spec_bytes()) {
            Some(document) => answer is Ok && answer->Ok_0@ == answer_of(document),
            None => answer is Err && answer->Err_0 is Envelope,
        },
{
    match parse_json(reply) {
        Ok(document) => Ok(answer_from_document(&document)),
        Err(error) => Err(TransportError::Envelope(json_error_text(&error))),
    }
}

} // verus!
