//! What a caller asks for, and the normalized request that is made of it.

use crate::fingerprint::fingerprint_of;
use crate::fingerprint::hash_content;
use crate::text::replace_char;
use crate::text::replaced;
use vstd::bytes::spec_u64_to_le_bytes;
use vstd::bytes::u64_to_le_bytes;
use vstd::prelude::*;
use vstd::string::StringExecFns;
use vstd::string::StringSliceAdditionalSpecFns;
use vstd::utf8::encode_utf8;

verus! {

/// The model that is asked where the caller names none.
pub const DEFAULT_MODEL: &'static str = "gpt-4o";

/// The character that stands for a line break inside a source literal.
pub const LINE_BREAK_CODE: char = ';';

/// What one invocation gives: the directives and the source text.
#[derive(Debug, Clone, PartialEq, Eq)]
pub struct MacroInput {
    pub model: Option<String>,
    pub seed: Option<i64>,
    pub max_completion_tokens: Option<u32>,
    /// Set by the caller while the source is being edited. It is carried
    /// along; the translation does not read it.
    pub editing: bool,
    /// The source text, its line breaks written as `LINE_BREAK_CODE`.
    pub dncl_code: String,
}

/// A directive of an invocation, by which the caller sets one thing.
#[derive(Debug, Clone, Copy, PartialEq, Eq, Structural)]
pub enum Directive {
    /// The model to ask; its value is a text.
    Model,
    /// The limit on the answer's tokens; its value is a number.
    MaxCompletionTokens,
    /// The seed; its value is a number.
    Seed,
    /// The file that holds the source; its value is a text.
    File,
    /// Whether the source is being edited; its value is a flag.
    Editing,
}

impl Directive {
    /// The name by which the directive is written.
    pub open spec fn name(self) -> Seq<char> {
        match self {
            Directive::Model => "model"@,
            Directive::MaxCompletionTokens => "max_completion_tokens"@,
            Directive::Seed => "seed"@,
            Directive::File => "file"@,
            Directive::Editing => "editing"@,
        }
    }

    /// The directive that is written as `name`; none where `name` is the name
    /// of no directive.
    pub fn named(name: &str) -> (directive: Option<Directive>)
        ensures
            match directive {
                Some(directive) => directive.name() == name@,
                None => forall|other: Directive| other.name() != name@,
            },
    {
        let name = String::from_str(name);
        if name == String::from_str("model") {
            Some(Directive::Model)
        } else if name == String::from_str("max_completion_tokens") {
            Some(Directive::MaxCompletionTokens)
        } else if name == String::from_str("seed") {
            Some(Directive::Seed)
        } else if name == String::from_str("file") {
            Some(Directive::File)
        } else if name == String::from_str("editing") {
            Some(Directive::Editing)
        } else {
            None
        }
    }
}

/// An invocation's input as a value.
pub struct InputView {
    pub model: Option<Seq<char>>,
    pub seed: Option<i64>,
    pub max_completion_tokens: Option<u32>,
    pub editing: bool,
    pub dncl_code: Seq<char>,
}

impl View for MacroInput {
    type V = InputView;

    open spec fn view(&self) -> InputView {
        InputView {
            model: match self.model {
                Some(name) => Some(name@),
                None => None,
            },
            seed: self.seed,
            max_completion_tokens: self.max_completion_tokens,
            editing: self.editing,
            dncl_code: self.dncl_code@,
        }
    }
}

/// Why an invocation gives no input.
#[derive(Debug, Clone, Copy, PartialEq, Eq, Structural)]
pub enum InputError {
    /// The source literal is empty.
    CodeIsEmpty,
    /// The source file is empty.
    FileIsEmpty,
}

impl InputError {
    /// The message of the error.
    pub fn message(&self) -> (text: &'static str)
        ensures
            text@ == match *self {
                InputError::CodeIsEmpty => "code is empty"@,
                InputError::FileIsEmpty => "file is empty"@,
            },
    {
        match self {
            InputError::CodeIsEmpty => "code is empty",
            InputError::FileIsEmpty => "file is empty",
        }
    }
}

impl MacroInput {
    /// The input for a source literal: its line breaks are written as
    /// `LINE_BREAK_CODE`. An empty literal is refused.
    pub fn from_literal(
        model: Option<String>,
        seed: Option<i64>,
        max_completion_tokens: Option<u32>,
        editing: bool,
        literal: &str,
    ) -> (input: Result<MacroInput, InputError>)
        ensures
            literal@.len() == 0 ==> input == Err::<MacroInput, InputError>(InputError::CodeIsEmpty),
            literal@.len() > 0 ==> input is Ok && input->Ok_0.model == model && input->Ok_0.seed
                == seed && input->Ok_0.max_completion_tokens == max_completion_tokens
                && input->Ok_0.editing == editing && input->Ok_0.dncl_code@ == replaced(
                literal@,
                '\n',
                LINE_BREAK_CODE,
            ),
    {
        if literal.is_empty() {
            return Err(InputError::CodeIsEmpty);
        }
        proof {
            reveal_strlit(";");
            assert(";"@ =~= seq![LINE_BREAK_CODE]);
        }
        let dncl_code = replace_char(literal, '\n', LINE_BREAK_CODE, ";");
        Ok(MacroInput { model, seed, max_completion_tokens, editing, dncl_code })
    }

    /// The input for a source that is written out without quotes, which is
    /// taken as it is. An empty source is refused.
    pub fn from_tokens(
        model: Option<String>,
        seed: Option<i64>,
        max_completion_tokens: Option<u32>,
        editing: bool,
        tokens: String,
    ) -> (input: Result<MacroInput, InputError>)
        ensures
            tokens@.len() == 0 ==> input == Err::<MacroInput, InputError>(InputError::CodeIsEmpty),
            tokens@.len() > 0 ==> input == Ok::<MacroInput, InputError>(
                MacroInput { model, seed, max_completion_tokens, editing, dncl_code: tokens },
            ),
    {
        if tokens.as_str().is_empty() {
            return Err(InputError::CodeIsEmpty);
        }
        Ok(MacroInput { model, seed, max_completion_tokens, editing, dncl_code: tokens })
    }

    /// The input for the content of a source file, which is taken as it is.
    /// An empty file is refused.
    pub fn from_file_content(
        model: Option<String>,
        seed: Option<i64>,
        max_completion_tokens: Option<u32>,
        editing: bool,
        content: String,
    ) -> (input: Result<MacroInput, InputError>)
        ensures
            content@.len() == 0 ==> input == Err::<MacroInput, InputError>(InputError::FileIsEmpty),
            content@.len() > 0 ==> input == Ok::<MacroInput, InputError>(
                MacroInput { model, seed, max_completion_tokens, editing, dncl_code: content },
            ),
    {
        if content.as_str().is_empty() {
            return Err(InputError::FileIsEmpty);
        }
        Ok(MacroInput { model, seed, max_completion_tokens, editing, dncl_code: content })
    }
}

/// The credential and the settings of one completion request.
#[derive(Clone, Hash)]
pub struct QuerySetting<'a> {
    pub api_key: &'a str,
    pub model: &'a str,
    pub seed: i64,
    pub max_completion_tokens: Option<u32>,
}

/// The bytes that stand for an optional token limit in a cache key.
pub open spec fn limit_bytes(limit: Option<u32>) -> Seq<u8> {
    match limit {
        None => seq![0u8],
        Some(n) => seq![1u8] + vstd::bytes::spec_u32_to_le_bytes(n),
    }
}

/// The bytes that a cache key is the fingerprint of: the model, the seed, the
/// token limit and the prompt text, one after the other. Each text is written
/// in UTF-8 and closed by a byte that UTF-8 never holds; the seed is written
/// as eight bytes, lowest first.
pub open spec fn key_material(
    model: Seq<char>,
    seed: i64,
    limit: Option<u32>,
    prompt_text: Seq<char>,
) -> Seq<u8> {
    encode_utf8(model) + seq![0xffu8] + spec_u64_to_le_bytes(seed as u64) + limit_bytes(limit)
        + encode_utf8(prompt_text) + seq![0xffu8]
}

/// The cache key of a request with these fields.
pub open spec fn cache_key_of(
    model: Seq<char>,
    seed: i64,
    limit: Option<u32>,
    prompt_text: Seq<char>,
) -> int {
    fingerprint_of(key_material(model, seed, limit, prompt_text))
}

impl<'a> QuerySetting<'a> {
    /// The bytes that the cache key of this setting with `content` is made of.
    /// The credential is no part of them.
    pub fn key_bytes(&self, content: &str) -> (bytes: Vec<u8>)
        ensures
            bytes@ == key_material(self.model@, self.seed, self.max_completion_tokens, content@),
    {
        let mut bytes: Vec<u8> = Vec::new();
        bytes.extend_from_slice(self.model.as_bytes());
        bytes.push(0xffu8);
        let seed_bytes = u64_to_le_bytes(self.seed as u64);
        bytes.extend_from_slice(seed_bytes.as_slice());
        match self.max_completion_tokens {
            None => {
                bytes.push(0u8);
            },
            Some(n) => {
                bytes.push(1u8);
                let limit = vstd::bytes::u32_to_le_bytes(n);
                bytes.extend_from_slice(limit.as_slice());
            },
        }
        bytes.extend_from_slice(content.as_bytes());
        bytes.push(0xffu8);
        assert(bytes@ =~= key_material(
            self.model@,
            self.seed,
            self.max_completion_tokens,
            content@,
        ));
        bytes
    }

    /// The cache key of this setting with `content`.
    pub fn cache_key(&self, content: &str) -> (key: i64)
        ensures
            key == cache_key_of(self.model@, self.seed, self.max_completion_tokens, content@),
            0 <= key < i64::MAX,
    {
        let bytes = self.key_bytes(content);
        hash_content(bytes.as_slice())
    }
}

/// The opening line of the fenced block that holds the source.
pub open spec fn fence_open() -> Seq<char> {
    seq!['`', '`', '`', 'd', 'n', 'c', 'l', '\n']
}

/// The closing of the fenced block that holds the source.
pub open spec fn fence_close() -> Seq<char> {
    seq!['\n', '`', '`', '`']
}

/// The prompt for a source text: its line breaks restored, inside a fenced
/// block tagged with the language's name.
pub open spec fn normalized_prompt(code: Seq<char>) -> Seq<char> {
    fence_open() + replaced(code, LINE_BREAK_CODE, '\n') + fence_close()
}

/// The seed of a request that names none: the fingerprint of its prompt.
pub open spec fn default_seed(prompt: Seq<char>) -> int {
    fingerprint_of(encode_utf8(prompt))
}

/// A normalized request as a value.
pub struct RequestView {
    pub model: Seq<char>,
    pub seed: i64,
    pub max_output_tokens: Option<u32>,
    /// The fixed document that describes the source language.
    pub guide: Seq<char>,
    /// The normalized prompt.
    pub prompt: Seq<char>,
}

impl RequestView {
    /// The whole text that is put before the model: the guide, then
    /// the prompt.
    pub open spec fn prompt_text(self) -> Seq<char> {
        self.guide + self.prompt
    }

    /// The cache key of the request.
    pub open spec fn cache_key(self) -> int {
        cache_key_of(self.model, self.seed, self.max_output_tokens, self.prompt_text())
    }
}

/// The request that is made of `input` and the language guide.
pub open spec fn request_for(input: InputView, guide: Seq<char>) -> RequestView {
    let prompt = normalized_prompt(input.dncl_code);
    RequestView {
        model: match input.model {
            Some(name) => name,
            None => DEFAULT_MODEL@,
        },
        seed: match input.seed {
            Some(seed) => seed,
            None => default_seed(prompt) as i64,
        },
        max_output_tokens: input.max_completion_tokens,
        guide,
        prompt,
    }
}

/// A normalized translation request. Its prompt is never empty.
#[derive(Debug, PartialEq, Eq)]
pub struct TranslationRequest {
    model: String,
    seed: i64,
    max_output_tokens: Option<u32>,
    guide: String,
    prompt: String,
}

impl View for TranslationRequest {
    type V = RequestView;

    closed spec fn view(&self) -> RequestView {
        RequestView {
            model: self.model@,
            seed: self.seed,
            max_output_tokens: self.max_output_tokens,
            guide: self.guide@,
            prompt: self.prompt@,
        }
    }
}

impl Clone for TranslationRequest {
    fn clone(&self) -> (copy: Self)
        ensures
            copy@ == self@,
    {
        proof {
            use_type_invariant(self);
        }
        TranslationRequest {
            model: self.model.clone(),
            seed: self.seed,
            max_output_tokens: self.max_output_tokens,
            guide: self.guide.clone(),
            prompt: self.prompt.clone(),
        }
    }
}

impl TranslationRequest {
    #[verifier::type_invariant]
    spec fn well_formed(self) -> bool {
        self.prompt@.len() > 0
    }

    /// Normalizes `input`: restores the line breaks of the source, puts it in
    /// a fenced block, and settles the model and the seed. An empty source is
    /// refused.
    pub fn normalize(input: &MacroInput, guide: &str) -> (request: Result<
        TranslationRequest,
        InputError,
    >)
        ensures
            input.dncl_code@.len() == 0 ==> request == Err::<TranslationRequest, InputError>(
                InputError::CodeIsEmpty,
            ),
            input.dncl_code@.len() > 0 ==> request is Ok && request->Ok_0@ == request_for(
                input@,
                guide@,
            ),
    {
        if input.dncl_code.as_str().is_empty() {
            return Err(InputError::CodeIsEmpty);
        }
        proof {
            reveal_strlit("\n");
            reveal_strlit("```dncl\n");
            reveal_strlit("\n```");
            assert("\n"@ =~= seq!['\n']);
            assert("```dncl\n"@ =~= fence_open());
            assert("\n```"@ =~= fence_close());
        }
        let source = replace_char(input.dncl_code.as_str(), LINE_BREAK_CODE, '\n', "\n");
        let mut prompt = String::from_str("```dncl\n");
        prompt.append(source.as_str());
        prompt.append("\n```");
        let model = match &input.model {
            Some(name) => name.clone(),
            None => String::from_str(DEFAULT_MODEL),
        };
        let seed = match input.seed {
            Some(seed) => seed,
            None => hash_content(prompt.as_str().as_bytes()),
        };
        Ok(
            TranslationRequest {
                model,
                seed,
                max_output_tokens: input.max_completion_tokens,
                guide: String::from_str(guide),
                prompt,
            },
        )
    }

    /// The model that is asked.
    pub fn model(&self) -> (model: &str)
        ensures
            model@ == self@.model,
    {
        self.model.as_str()
    }

    /// The seed that is sent.
    pub fn seed(&self) -> (seed: i64)
        ensures
            seed == self@.seed,
    {
        self.seed
    }

    /// The limit on the answer's tokens, where there is one.
    pub fn max_output_tokens(&self) -> (limit: Option<u32>)
        ensures
            limit == self@.max_output_tokens,
    {
        self.max_output_tokens
    }

    /// The language guide.
    pub fn guide(&self) -> (text: &str)
        ensures
            text@ == self@.guide,
    {
        self.guide.as_str()
    }

    /// The normalized prompt, which is not empty.
    pub fn prompt(&self) -> (text: &str)
        ensures
            text@ == self@.prompt,
            text@.len() > 0,
    {
        proof {
            use_type_invariant(self);
        }
        self.prompt.as_str()
    }

    /// The whole prompt text, which is not empty.
    pub fn prompt_text(&self) -> (text: String)
        ensures
            text@ == self@.prompt_text(),
            text@.len() > 0,
    {
        proof {
            use_type_invariant(self);
        }
        let mut text = self.guide.clone();
        text.append(self.prompt.as_str());
        text
    }

    /// The settings of the completion request, with the credential.
    pub fn setting<'a>(&'a self, api_key: &'a str) -> (setting: QuerySetting<'a>)
        ensures
            setting.api_key@ == api_key@,
            setting.model@ == self@.model,
            setting.seed == self@.seed,
            setting.max_completion_tokens == self@.max_output_tokens,
    {
        QuerySetting {
            api_key,
            model: self.model.as_str(),
            seed: self.seed,
            max_completion_tokens: self.max_output_tokens,
        }
    }

    /// The key under which the answer to this request is cached.
    pub fn cache_key(&self) -> (key: i64)
        ensures
            key == self@.cache_key(),
            0 <= key < i64::MAX,
    {
        let text = self.prompt_text();
        self.setting("").cache_key(text.as_str())
    }
}

} // verus!
