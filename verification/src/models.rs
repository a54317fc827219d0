//! The models that the completion service offers: how their list is asked
//! for, kept, and used to check a model's name before anything is sent.

use crate::cache::cache_directory;
use crate::cache::CACHE_DIRECTORY;
use crate::cache::StorageError;
use crate::client::bearer;
use crate::client::Header;
use crate::extract::views;
use crate::json::json_element;
use crate::json::json_length;
use crate::json::json_member;
use crate::json::json_rendered;
use crate::json::json_text;
use crate::json::json_tree;
use crate::json::JsonTree;
use crate::json::member_of;
use crate::json::render_json;
use crate::json::text_of;
use crate::request::DEFAULT_MODEL;
use vstd::prelude::*;
use vstd::string::StringExecFns;

verus! {

/// Where the list of models is asked for.
pub const MODELS_URL: &'static str = "https://api.openai.com/v1/models";

/// The name of the file, in the cache directory, that keeps the list.
pub const MODELS_FILE: &'static str = "available_models.toml";

/// The identifier of an entry of the list; nothing where it has none that is
/// a text.
pub open spec fn id_of(entry: JsonTree) -> Option<Seq<char>> {
    text_of(member_of(entry, "id"@))
}

/// The index of the first entry at or after `from` that has no identifier;
/// the number of entries if each has one.
pub open spec fn first_without_id(entries: Seq<JsonTree>, from: int) -> int
    decreases entries.len() - from,
{
    if from < 0 || from >= entries.len() {
        entries.len() as int
    } else if id_of(entries[from]) is None {
        from
    } else {
        first_without_id(entries, from + 1)
    }
}

/// The models of a listing: the identifiers of the entries under `data`, in
/// order. Where `data` is no list, the whole listing is handed back in print
/// as unexpected; where an entry has no identifier, the first such entry is.
pub open spec fn listed_models(listing: JsonTree) -> Result<Seq<Seq<char>>, Seq<char>> {
    match member_of(listing, "data"@) {
        JsonTree::List(entries) => {
            let bad = first_without_id(entries, 0);
            if bad >= entries.len() {
                Ok(Seq::new(entries.len(), |i: int| id_of(entries[i])->0))
            } else {
                Err(json_rendered(entries[bad]))
            }
        },
        _ => Err(json_rendered(listing)),
    }
}

/// A listing of another shape than expected; the text is what was found, in
/// print.
#[derive(Debug, Clone, PartialEq, Eq)]
pub struct UnexpectedListing {
    pub found: String,
}

impl UnexpectedListing {
    /// The words before what was found in the message.
    pub open spec fn message_head() -> Seq<char> {
        seq![
            'U',
            'n',
            'e',
            'x',
            'p',
            'e',
            'c',
            't',
            'e',
            'd',
            ' ',
            'r',
            'e',
            's',
            'p',
            'o',
            'n',
            's',
            'e',
            ':',
            ' ',
        ]
    }

    /// The message of the error.
    pub fn message(&self) -> (text: String)
        ensures
            text@ == Self::message_head() + self.found@,
    {
        proof {
            reveal_strlit("Unexpected response: ");
            assert("Unexpected response: "@ =~= Self::message_head());
        }
        let mut text = String::from_str("Unexpected response: ");
        text.append(self.found.as_str());
        text
    }
}

/// The result of reading a listing as a value.
pub open spec fn listing_view(models: Result<Vec<String>, UnexpectedListing>) -> Result<
    Seq<Seq<char>>,
    Seq<char>,
> {
    match models {
        Ok(names) => Ok(views(names@)),
        Err(error) => Err(error.found@),
    }
}

/// The identifiers of the models that a listing names.
pub fn model_ids(listing: &serde_json::Value) -> (models: Result<Vec<String>, UnexpectedListing>)
    ensures
        listing_view(models) == listed_models(json_tree(*listing)),
{
    let data = json_member(listing, "data");
    let count = match json_length(data) {
        Some(count) => count,
        None => {
            return Err(UnexpectedListing { found: render_json(listing) });
        },
    };
    let ghost entries = json_tree(*data)->List_0;
    let mut names: Vec<String> = Vec::new();
    let mut i: usize = 0;
    while i < count
        invariant
            i <= count,
            json_tree(*data) == JsonTree::List(entries),
            json_tree(*data) == member_of(json_tree(*listing), "data"@),
            entries.len() == count,
            names.len() == i,
            first_without_id(entries, 0) == first_without_id(entries, i as int),
            forall|k: int| 0 <= k < i ==> id_of(entries[k]) == Some((#[trigger] names[k])@),
        decreases count - i,
    {
        let entry = json_element(data, i);
        match json_text(json_member(entry, "id")) {
            Some(name) => {
                names.push(name);
            },
            None => {
                return Err(UnexpectedListing { found: render_json(entry) });
            },
        }
        i += 1;
    }
    assert(views(names@) =~= Seq::new(entries.len(), |i: int| id_of(entries[i])->0));
    Ok(names)
}

/// A request for the list of models, ready to be sent.
#[derive(Debug, Clone, PartialEq, Eq)]
pub struct ModelsCall {
    pub url: String,
    pub headers: Vec<Header>,
}

/// The request that asks the service for the list of its models: one call,
/// with the credential as its only header.
pub fn get_available_gpt_models(api_key: &str) -> (call: ModelsCall)
    ensures
        call.url@ == MODELS_URL@,
        call.headers@.len() == 1,
        call.headers@[0].name@ == "Authorization"@,
        call.headers@[0].value@ == bearer(api_key@),
{
    proof {
        reveal_strlit("Bearer ");
        assert("Bearer "@ =~= seq!['B', 'e', 'a', 'r', 'e', 'r', ' ']);
    }
    let mut credential = String::from_str("Bearer ");
    credential.append(api_key);
    let mut headers: Vec<Header> = Vec::new();
    headers.push(Header { name: String::from_str("Authorization"), value: credential });
    ModelsCall { url: String::from_str(MODELS_URL), headers }
}

/// The path of the file that keeps the list of models, below `base`.
pub fn models_file_path(base: &str) -> (path: String)
    ensures
        path@ == base@ + seq!['/'] + CACHE_DIRECTORY@ + seq!['/'] + MODELS_FILE@,
{
    proof {
        reveal_strlit("/");
        assert("/"@ =~= seq!['/']);
    }
    let mut path = cache_directory(base);
    path.append("/");
    path.append(MODELS_FILE);
    path
}

/// What the file that keeps the list of models turned out to hold.
#[derive(Debug, Clone, PartialEq, Eq)]
pub enum ModelsFile {
    /// There is no such file.
    Absent,
    /// The list that was kept.
    List(Vec<String>),
    /// Something that is no list; the text says what is wrong with it.
    Malformed(String),
    /// Nothing that could be read; the text says why.
    Unreadable(String),
}

/// How the list of models is to be had.
#[derive(Debug, Clone, PartialEq, Eq)]
pub enum ModelsPlan {
    /// The kept list is the list.
    Use(Vec<String>),
    /// The service is asked, and its answer is kept.
    Fetch,
    /// The kept list cannot be used.
    Fail(StorageError),
}

/// Decides how the list of models is to be had: a kept list is used as it is,
/// however old; the service is asked only where no list was kept; a file that
/// cannot be read as a list is an error.
pub fn available_gpt_models(kept: ModelsFile) -> (plan: ModelsPlan)
    ensures
        plan == match kept {
            ModelsFile::Absent => ModelsPlan::Fetch,
            ModelsFile::List(names) => ModelsPlan::Use(names),
            ModelsFile::Malformed(reason) => ModelsPlan::Fail(StorageError::Malformed(reason)),
            ModelsFile::Unreadable(reason) => ModelsPlan::Fail(StorageError::Io(reason)),
        },
{
    match kept {
        ModelsFile::Absent => ModelsPlan::Fetch,
        ModelsFile::List(names) => ModelsPlan::Use(names),
        ModelsFile::Malformed(reason) => ModelsPlan::Fail(StorageError::Malformed(reason)),
        ModelsFile::Unreadable(reason) => ModelsPlan::Fail(StorageError::Io(reason)),
    }
}

/// A model that the service does not offer.
#[derive(Debug, Clone, PartialEq, Eq)]
pub struct ModelNotAvailable {
    pub model: String,
}

/// The model that is meant: the one that is named, or the default.
pub open spec fn wanted_model(model: Option<&str>) -> Seq<char> {
    match model {
        Some(name) => name@,
        None => DEFAULT_MODEL@,
    }
}

impl ModelNotAvailable {
    /// The words before the model's name in the message.
    pub open spec fn message_head() -> Seq<char> {
        seq!['M', 'o', 'd', 'e', 'l', ' ']
    }

    /// The words after the model's name in the message.
    pub open spec fn message_tail() -> Seq<char> {
        seq![' ', 'i', 's', ' ', 'n', 'o', 't', ' ', 'a', 'v', 'a', 'i', 'l', 'a', 'b', 'l', 'e']
    }

    /// The message of the error.
    pub fn message(&self) -> (text: String)
        ensures
            text@ == Self::message_head() + self.model@ + Self::message_tail(),
    {
        proof {
            reveal_strlit("Model ");
            reveal_strlit(" is not available");
            assert("Model "@ =~= Self::message_head());
            assert(" is not available"@ =~= Self::message_tail());
        }
        let mut text = String::from_str("Model ");
        text.append(self.model.as_str());
        text.append(" is not available");
        text
    }
}

/// Checks that the model that is meant is among the `available` ones, and
/// gives its name.
pub fn check_available(model: Option<&str>, available: &Vec<String>) -> (checked: Result<
    String,
    ModelNotAvailable,
>)
    ensures
        match checked {
            Ok(name) => name@ == wanted_model(model) && views(available@).contains(name@),
            Err(error) => error.model@ == wanted_model(model) && !views(available@).contains(
                error.model@,
            ),
        },
{
    let name = match model {
        Some(name) => String::from_str(name),
        None => String::from_str(DEFAULT_MODEL),
    };
    let mut i: usize = 0;
    while i < available.len()
        invariant
            i <= available.len(),
            name@ == wanted_model(model),
            forall|k: int| 0 <= k < i ==> (#[trigger] available[k])@ != name@,
        decreases available.len() - i,
    {
        if available[i] == name {
            assert(views(available@)[i as int] == name@);
            return Ok(name);
        }
        i += 1;
    }
    assert forall|k: int| 0 <= k < views(available@).len() implies views(available@)[k]
        != name@ by {
        assert(available[k]@ != name@);
    }
    Err(ModelNotAvailable { model: name })
}

} // verus!
