//! The translation of one source text, as a machine that is driven from the
//! outside: each step takes what the last action brought and says what is to
//! be done next. The machine reads no file and sends nothing itself.
//!
//! A translation looks the answer up in the cache first. Only where the cache
//! has none is the credential asked for and the completion service called, and
//! the answer is then kept. Either way the code is taken from the answer.

use crate::cache::cache_file_name;
use crate::cache::CacheFile;
use crate::cache::CacheFileView;
use crate::cache::entry_of;
use crate::cache::file_name_of;
use crate::cache::file_views;
use crate::cache::loaded;
use crate::cache::saved_file;
use crate::cache::StorageError;
use crate::cache::StorageErrorView;
use crate::client::answer_from_reply;
use crate::client::answer_of;
use crate::client::CallView;
use crate::client::completion_call;
use crate::client::CompletionCall;
use crate::client::TransportError;
use crate::extract::extract_code_blocks;
use crate::extract::extracted;
use crate::json::json_parsed;
use crate::request::InputError;
use crate::request::InputView;
use crate::request::MacroInput;
use crate::request::request_for;
use crate::request::RequestView;
use crate::request::TranslationRequest;
use vstd::prelude::*;
use vstd::string::StringExecFns;
use vstd::string::StringSliceAdditionalSpecFns;
use vstd::utf8::encode_utf8;

verus! {

/// Why a translation gave no code.
#[derive(Debug, Clone, PartialEq, Eq)]
pub enum TranspileError {
    /// The invocation gives no source.
    Input(InputError),
    /// There is no credential for the completion service.
    Configuration,
    /// The cache could not be read.
    Storage(StorageError),
    /// The completion service gave no reply that can be read.
    Transport(TransportError),
    /// The machine was handed something that it had not asked for.
    OutOfTurn,
}

/// The stage of a translation at which an error arose.
pub open spec fn stage_of(error: TranspileError) -> Seq<char> {
    match error {
        TranspileError::Input(_) => "input"@,
        TranspileError::Configuration => "configuration"@,
        TranspileError::Storage(_) => "cache"@,
        TranspileError::Transport(_) => "completion service"@,
        TranspileError::OutOfTurn => "translation"@,
    }
}

/// What went wrong, without the stage.
pub open spec fn detail_of(error: TranspileError) -> Seq<char> {
    match error {
        TranspileError::Input(InputError::CodeIsEmpty) => "code is empty"@,
        TranspileError::Input(InputError::FileIsEmpty) => "file is empty"@,
        TranspileError::Configuration => "the credential is not set"@,
        TranspileError::Storage(StorageError::Io(reason)) => reason@,
        TranspileError::Storage(StorageError::Malformed(reason)) => reason@,
        TranspileError::Transport(TransportError::Network(reason)) => reason@,
        TranspileError::Transport(TransportError::Envelope(reason)) => reason@,
        TranspileError::OutOfTurn => "an event came out of turn"@,
    }
}

impl TranspileError {
    /// The message of the error: the stage at which it arose, a colon and a
    /// space, and what went wrong.
    pub fn message(&self) -> (text: String)
        ensures
            text@ == stage_of(*self) + seq![':', ' '] + detail_of(*self),
    {
        proof {
            reveal_strlit(": ");
            assert(": "@ =~= seq![':', ' ']);
        }
        let (stage, detail): (&str, &str) = match self {
            TranspileError::Input(error) => ("input", error.message()),
            TranspileError::Configuration => ("configuration", "the credential is not set"),
            TranspileError::Storage(error) => ("cache", error.reason()),
            TranspileError::Transport(error) => ("completion service", error.reason()),
            TranspileError::OutOfTurn => ("translation", "an event came out of turn"),
        };
        let mut text = String::from_str(stage);
        text.append(": ");
        text.append(detail);
        text
    }
}

/// A transport error as a value. Of a reply that is no JSON document only
/// that much is kept.
pub enum TransportErrorView {
    Network(Seq<char>),
    Envelope,
}

impl View for TransportError {
    type V = TransportErrorView;

    open spec fn view(&self) -> TransportErrorView {
        match *self {
            TransportError::Network(reason) => TransportErrorView::Network(reason@),
            TransportError::Envelope(_) => TransportErrorView::Envelope,
        }
    }
}

/// A translation error as a value.
pub enum TranspileErrorView {
    Input(InputError),
    Configuration,
    Storage(StorageErrorView),
    Transport(TransportErrorView),
    OutOfTurn,
}

impl View for TranspileError {
    type V = TranspileErrorView;

    open spec fn view(&self) -> TranspileErrorView {
        match *self {
            TranspileError::Input(error) => TranspileErrorView::Input(error),
            TranspileError::Configuration => TranspileErrorView::Configuration,
            TranspileError::Storage(error) => TranspileErrorView::Storage(error@),
            TranspileError::Transport(error) => TranspileErrorView::Transport(error@),
            TranspileError::OutOfTurn => TranspileErrorView::OutOfTurn,
        }
    }
}

/// Where a translation stands.
#[derive(Debug, Clone, PartialEq, Eq)]
pub enum TranspileState {
    /// Nothing has happened yet.
    Start,
    /// The cache file of the request is being read.
    Lookup(TranslationRequest),
    /// The cache has no answer; the credential is being looked for.
    Configure(TranslationRequest),
    /// The completion service has been called.
    Call(TranslationRequest),
    /// The answer is being written to the cache.
    Store(String),
    /// The translation has ended.
    Done,
}

/// The state of a translation as a value.
pub enum StateView {
    Start,
    Lookup(RequestView),
    Configure(RequestView),
    Call(RequestView),
    Store(Seq<char>),
    Done,
}

impl View for TranspileState {
    type V = StateView;

    open spec fn view(&self) -> StateView {
        match *self {
            TranspileState::Start => StateView::Start,
            TranspileState::Lookup(request) => StateView::Lookup(request@),
            TranspileState::Configure(request) => StateView::Configure(request@),
            TranspileState::Call(request) => StateView::Call(request@),
            TranspileState::Store(answer) => StateView::Store(answer@),
            TranspileState::Done => StateView::Done,
        }
    }
}

/// What is handed to the machine.
#[derive(Debug, PartialEq, Eq)]
pub enum Event {
    /// The invocation, with the document that describes the source language.
    Begin { input: MacroInput, guide: String },
    /// The files that the cache directory holds.
    Directory(Vec<CacheFile>),
    /// The credential, where there is one.
    Credential(Option<String>),
    /// The text of the service's reply, or how the exchange failed.
    Reply(Result<String, String>),
    /// How writing the cache file went.
    Stored(Result<(), String>),
}

/// An event as a value.
pub enum EventView {
    Begin { input: InputView, guide: Seq<char> },
    Directory(Seq<CacheFileView>),
    Credential(Option<Seq<char>>),
    Reply(Result<Seq<char>, Seq<char>>),
    Stored(Result<(), Seq<char>>),
}

impl View for Event {
    type V = EventView;

    open spec fn view(&self) -> EventView {
        match *self {
            Event::Begin { input, guide } => EventView::Begin {
                input: input@,
                guide: guide@,
            },
            Event::Directory(files) => EventView::Directory(file_views(files@)),
            Event::Credential(credential) => EventView::Credential(
                match credential {
                    Some(key) => Some(key@),
                    None => None,
                },
            ),
            Event::Reply(reply) => EventView::Reply(
                match reply {
                    Ok(text) => Ok(text@),
                    Err(reason) => Err(reason@),
                },
            ),
            Event::Stored(outcome) => EventView::Stored(
                match outcome {
                    Ok(_) => Ok(()),
                    Err(reason) => Err(reason@),
                },
            ),
        }
    }
}

/// What the machine asks for.
#[derive(Debug, PartialEq, Eq)]
pub enum Action {
    /// Read the file of this name in the cache directory, and hand over what
    /// the directory holds under that name.
    ReadCache(String),
    /// Look for the credential.
    ResolveCredential,
    /// Send this request to the completion service.
    Send(CompletionCall),
    /// Write this file to the cache directory.
    WriteCache(CacheFile),
    /// Stop: the translation gave this code, or failed. A warning says that
    /// the answer could not be kept, which fails nothing.
    Finish { result: Result<String, TranspileError>, warning: Option<StorageError> },
}

/// An action as a value.
pub enum ActionView {
    ReadCache(Seq<char>),
    ResolveCredential,
    Send(CallView),
    WriteCache(CacheFileView),
    Finish { result: Result<Seq<char>, TranspileErrorView>, warning: Option<StorageErrorView> },
}

impl View for Action {
    type V = ActionView;

    open spec fn view(&self) -> ActionView {
        match *self {
            Action::ReadCache(name) => ActionView::ReadCache(name@),
            Action::ResolveCredential => ActionView::ResolveCredential,
            Action::Send(call) => ActionView::Send(call@),
            Action::WriteCache(file) => ActionView::WriteCache(file@),
            Action::Finish { result, warning } => ActionView::Finish {
                result: match result {
                    Ok(code) => Ok(code@),
                    Err(error) => Err(error@),
                },
                warning: match warning {
                    Some(error) => Some(error@),
                    None => None,
                },
            },
        }
    }
}

/// The end of a translation that failed.
pub open spec fn failed(error: TranspileErrorView) -> (StateView, ActionView) {
    (StateView::Done, ActionView::Finish { result: Err(error), warning: None })
}

/// The end of a translation that has an answer: the code is taken from it.
pub open spec fn finished(answer: Seq<char>, warning: Option<StorageErrorView>) -> (
    StateView,
    ActionView,
) {
    (StateView::Done, ActionView::Finish { result: Ok(extracted(answer)), warning })
}

/// The request that is sent for `request` with the credential `api_key`: the
/// guide, then the prompt.
pub open spec fn call_for(request: RequestView, api_key: Seq<char>) -> CallView {
    completion_call(
        api_key,
        request.model,
        request.seed,
        request.max_output_tokens,
        seq![request.guide, request.prompt],
    )
}

/// The cache file that keeps `answer` for `request`.
pub open spec fn file_for(request: RequestView, answer: Seq<char>) -> CacheFileView {
    saved_file(
        request.model,
        request.seed,
        request.max_output_tokens,
        request.prompt_text(),
        answer,
    )
}

/// One step of a translation: the state that follows, and what is to be done.
pub open spec fn step(state: StateView, event: EventView) -> (StateView, ActionView) {
    match state {
        StateView::Start => match event {
            EventView::Begin { input, guide } => if input.dncl_code.len() == 0 {
                failed(TranspileErrorView::Input(InputError::CodeIsEmpty))
            } else {
                let request = request_for(input, guide);
                (
                    StateView::Lookup(request),
                    ActionView::ReadCache(file_name_of(request.cache_key())),
                )
            },
            _ => failed(TranspileErrorView::OutOfTurn),
        },
        StateView::Lookup(request) => match event {
            EventView::Directory(files) => match loaded(
                entry_of(files, file_name_of(request.cache_key())),
            ) {
                Ok(Some(answer)) => finished(answer, None),
                Ok(None) => (StateView::Configure(request), ActionView::ResolveCredential),
                Err(error) => failed(TranspileErrorView::Storage(error)),
            },
            _ => failed(TranspileErrorView::OutOfTurn),
        },
        StateView::Configure(request) => match event {
            EventView::Credential(None) => failed(TranspileErrorView::Configuration),
            EventView::Credential(Some(api_key)) => (
                StateView::Call(request),
                ActionView::Send(call_for(request, api_key)),
            ),
            _ => failed(TranspileErrorView::OutOfTurn),
        },
        StateView::Call(request) => match event {
            EventView::Reply(Err(reason)) => failed(
                TranspileErrorView::Transport(TransportErrorView::Network(reason)),
            ),
            EventView::Reply(Ok(text)) => match json_parsed(encode_utf8(text)) {
                None => failed(TranspileErrorView::Transport(TransportErrorView::Envelope)),
                Some(document) => (
                    StateView::Store(answer_of(document)),
                    ActionView::WriteCache(file_for(request, answer_of(document))),
                ),
            },
            _ => failed(TranspileErrorView::OutOfTurn),
        },
        StateView::Store(answer) => match event {
            EventView::Stored(Ok(_)) => finished(answer, None),
            EventView::Stored(Err(reason)) => finished(answer, Some(StorageErrorView::Io(reason))),
            _ => failed(TranspileErrorView::OutOfTurn),
        },
        StateView::Done => failed(TranspileErrorView::OutOfTurn),
    }
}

/// Stops with an error.
fn fail(error: TranspileError) -> (end: (TranspileState, Action))
    ensures
        (end.0@, end.1@) == failed(error@),
{
    (TranspileState::Done, Action::Finish { result: Err(error), warning: None })
}

/// Stops with the code of an answer.
fn finish(answer: &str, warning: Option<StorageError>) -> (end: (TranspileState, Action))
    ensures
        (end.0@, end.1@) == finished(
            answer@,
            match warning {
                Some(error) => Some(error@),
                None => None,
            },
        ),
{
    let code = extract_code_blocks(answer);
    (TranspileState::Done, Action::Finish { result: Ok(code), warning })
}

/// Takes one step of a translation: from where it stands and what the last
/// action brought, to where it stands next and what is to be done.
pub fn transpile(state: TranspileState, event: Event) -> (next: (TranspileState, Action))
    ensures
        (next.0@, next.1@) == step(state@, event@),
{
    match state {
        TranspileState::Start => match event {
            Event::Begin { input, guide } => {
                match TranslationRequest::normalize(&input, guide.as_str()) {
                    Err(error) => fail(TranspileError::Input(error)),
                    Ok(request) => {
                        let name = cache_file_name(request.cache_key());
                        (TranspileState::Lookup(request), Action::ReadCache(name))
                    },
                }
            },
            _ => fail(TranspileError::OutOfTurn),
        },
        TranspileState::Lookup(request) => match event {
            Event::Directory(files) => {
                let text = request.prompt_text();
                match request.setting("").load_cache(text.as_str(), &files) {
                    Ok(Some(answer)) => finish(answer.as_str(), None),
                    Ok(None) => (TranspileState::Configure(request), Action::ResolveCredential),
                    Err(error) => fail(TranspileError::Storage(error)),
                }
            },
            _ => fail(TranspileError::OutOfTurn),
        },
        TranspileState::Configure(request) => match event {
            Event::Credential(None) => fail(TranspileError::Configuration),
            Event::Credential(Some(api_key)) => {
                let mut inputs: Vec<&str> = Vec::new();
                inputs.push(request.guide());
                inputs.push(request.prompt());
                let call = request.setting(api_key.as_str()).query(inputs.as_slice());
                assert(crate::client::texts(inputs@) =~= seq![
                    request@.guide,
                    request@.prompt,
                ]);
                (TranspileState::Call(request), Action::Send(call))
            },
            _ => fail(TranspileError::OutOfTurn),
        },
        TranspileState::Call(request) => match event {
            Event::Reply(Err(reason)) => fail(
                TranspileError::Transport(TransportError::Network(reason)),
            ),
            Event::Reply(Ok(reply)) => match answer_from_reply(reply.as_str()) {
                Err(error) => fail(TranspileError::Transport(error)),
                Ok(answer) => {
                    let text = request.prompt_text();
                    let file = request.setting("").save_cache(text.as_str(), answer.as_str());
                    (TranspileState::Store(answer), Action::WriteCache(file))
                },
            },
            _ => fail(TranspileError::OutOfTurn),
        },
        TranspileState::Store(answer) => match event {
            Event::Stored(Ok(_)) => finish(answer.as_str(), None),
            Event::Stored(Err(reason)) => finish(answer.as_str(), Some(StorageError::Io(reason))),
            _ => fail(TranspileError::OutOfTurn),
        },
        TranspileState::Done => fail(TranspileError::OutOfTurn),
    }
}

} // verus!
