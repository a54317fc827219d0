//! The response cache: one file for each request, named by the request's cache
//! key. The library decides names and contents; reading and writing the files
//! is left to its caller, who hands over what the cache directory holds.

use crate::request::cache_key_of;
use crate::request::QuerySetting;
use crate::text::decimal;
use crate::text::push_decimal;
use vstd::prelude::*;
use vstd::string::StringExecFns;

verus! {

/// What is kept of an answered request.
#[derive(Debug, Clone, PartialEq, Eq)]
pub struct CacheRecord {
    pub model: String,
    pub seed: i64,
    pub max_completion_tokens: Option<u32>,
    pub response: String,
}

/// A cache record as a value.
pub struct RecordView {
    pub model: Seq<char>,
    pub seed: i64,
    pub max_completion_tokens: Option<u32>,
    pub response: Seq<char>,
}

impl View for CacheRecord {
    type V = RecordView;

    open spec fn view(&self) -> RecordView {
        RecordView {
            model: self.model@,
            seed: self.seed,
            max_completion_tokens: self.max_completion_tokens,
            response: self.response@,
        }
    }
}

/// What a file of the cache directory turned out to hold.
#[derive(Debug, Clone, PartialEq, Eq)]
pub enum FileState {
    /// A record.
    Record(CacheRecord),
    /// Something that is no record; the text says what is wrong with it.
    Malformed(String),
    /// Nothing that could be read; the text says why.
    Unreadable(String),
}

/// The state of a cache file as a value.
pub enum FileStateView {
    Record(RecordView),
    Malformed(Seq<char>),
    Unreadable(Seq<char>),
}

impl View for FileState {
    type V = FileStateView;

    open spec fn view(&self) -> FileStateView {
        match *self {
            FileState::Record(record) => FileStateView::Record(record@),
            FileState::Malformed(reason) => FileStateView::Malformed(reason@),
            FileState::Unreadable(reason) => FileStateView::Unreadable(reason@),
        }
    }
}

/// A file of the cache directory: its name and what it holds.
#[derive(Debug, Clone, PartialEq, Eq)]
pub struct CacheFile {
    pub name: String,
    pub state: FileState,
}

/// A cache file as a value.
pub struct CacheFileView {
    pub name: Seq<char>,
    pub state: FileStateView,
}

impl View for CacheFile {
    type V = CacheFileView;

    open spec fn view(&self) -> CacheFileView {
        CacheFileView { name: self.name@, state: self.state@ }
    }
}

/// Why the cache could not be used.
#[derive(Debug, Clone, PartialEq, Eq)]
pub enum StorageError {
    /// A file could not be read or written.
    Io(String),
    /// A file is there and holds no record.
    Malformed(String),
}

/// A storage error as a value.
pub enum StorageErrorView {
    Io(Seq<char>),
    Malformed(Seq<char>),
}

impl View for StorageError {
    type V = StorageErrorView;

    open spec fn view(&self) -> StorageErrorView {
        match *self {
            StorageError::Io(reason) => StorageErrorView::Io(reason@),
            StorageError::Malformed(reason) => StorageErrorView::Malformed(reason@),
        }
    }
}

impl StorageError {
    /// What went wrong, in the words of whoever found it.
    pub fn reason(&self) -> (text: &str)
        ensures
            text@ == match self@ {
                StorageErrorView::Io(reason) => reason,
                StorageErrorView::Malformed(reason) => reason,
            },
    {
        match self {
            StorageError::Io(reason) => reason.as_str(),
            StorageError::Malformed(reason) => reason.as_str(),
        }
    }
}

/// The views of the files of a directory.
pub open spec fn file_views(files: Seq<CacheFile>) -> Seq<CacheFileView> {
    Seq::new(files.len(), |i: int| files[i]@)
}

/// The name of the directory, below the base directory, that holds the cache.
pub const CACHE_DIRECTORY: &'static str = "gpt_responses";

/// The name of the cache file for `key`.
pub open spec fn file_name_of(key: int) -> Seq<char> {
    seq!['c', 'a', 'c', 'h', 'e', '_'] + decimal(key) + seq!['.', 't', 'o', 'm', 'l']
}

/// The path of the cache file for `key` below the base directory `base`.
pub open spec fn file_path_of(base: Seq<char>, key: int) -> Seq<char> {
    base + seq!['/'] + CACHE_DIRECTORY@ + seq!['/'] + file_name_of(key)
}

/// The name of the cache file for `key`.
pub fn cache_file_name(key: i64) -> (name: String)
    ensures
        name@ == file_name_of(key as int),
{
    proof {
        reveal_strlit("cache_");
        reveal_strlit(".toml");
        assert("cache_"@ =~= seq!['c', 'a', 'c', 'h', 'e', '_']);
        assert(".toml"@ =~= seq!['.', 't', 'o', 'm', 'l']);
    }
    let mut name = String::from_str("cache_");
    push_decimal(&mut name, key);
    name.append(".toml");
    name
}

/// The path of the directory that holds the cache, below `base`.
pub fn cache_directory(base: &str) -> (path: String)
    ensures
        path@ == base@ + seq!['/'] + CACHE_DIRECTORY@,
{
    proof {
        reveal_strlit("/");
        assert("/"@ =~= seq!['/']);
    }
    let mut path = String::from_str(base);
    path.append("/");
    path.append(CACHE_DIRECTORY);
    path
}

/// The path of the cache file for `setting` and `content`, below `base`.
pub fn get_cache_file_path(setting: &QuerySetting, content: &str, base: &str) -> (path: String)
    ensures
        path@ == file_path_of(
            base@,
            cache_key_of(setting.model@, setting.seed, setting.max_completion_tokens, content@),
        ),
{
    proof {
        reveal_strlit("/");
        assert("/"@ =~= seq!['/']);
    }
    let mut path = cache_directory(base);
    path.append("/");
    let name = cache_file_name(setting.cache_key(content));
    path.append(name.as_str());
    assert(path@ =~= file_path_of(
        base@,
        cache_key_of(setting.model@, setting.seed, setting.max_completion_tokens, content@),
    ));
    path
}

/// What the first file named `name` holds, where there is one.
pub open spec fn entry_of(files: Seq<CacheFileView>, name: Seq<char>) -> Option<FileStateView>
    decreases files.len(),
{
    if files.len() == 0 {
        None
    } else if files[0].name == name {
        Some(files[0].state)
    } else {
        entry_of(files.drop_first(), name)
    }
}

/// What a lookup gives for what the file holds: nothing where there is no
/// file, the response of a record, an error for anything else.
pub open spec fn loaded(entry: Option<FileStateView>) -> Result<
    Option<Seq<char>>,
    StorageErrorView,
> {
    match entry {
        None => Ok(None),
        Some(FileStateView::Record(record)) => Ok(Some(record.response)),
        Some(FileStateView::Malformed(reason)) => Err(StorageErrorView::Malformed(reason)),
        Some(FileStateView::Unreadable(reason)) => Err(StorageErrorView::Io(reason)),
    }
}

/// The result of a lookup as a value.
pub open spec fn lookup_view(found: Result<Option<String>, StorageError>) -> Result<
    Option<Seq<char>>,
    StorageErrorView,
> {
    match found {
        Ok(None) => Ok(None),
        Ok(Some(response)) => Ok(Some(response@)),
        Err(error) => Err(error@),
    }
}

/// The file that keeps `response` as the answer to a request with these
/// fields.
pub open spec fn saved_file(
    model: Seq<char>,
    seed: i64,
    limit: Option<u32>,
    content: Seq<char>,
    response: Seq<char>,
) -> CacheFileView {
    CacheFileView {
        name: file_name_of(cache_key_of(model, seed, limit, content)),
        state: FileStateView::Record(
            RecordView { model, seed, max_completion_tokens: limit, response },
        ),
    }
}

impl<'a> QuerySetting<'a> {
    /// Looks up the cached answer for this setting and `content` among the
    /// files of the cache directory. That there is no file is no error; a file
    /// that holds no record is one.
    pub fn load_cache(&self, content: &str, directory: &Vec<CacheFile>) -> (found: Result<
        Option<String>,
        StorageError,
    >)
        ensures
            lookup_view(found) == loaded(
                entry_of(
                    file_views(directory@),
                    file_name_of(
                        cache_key_of(
                            self.model@,
                            self.seed,
                            self.max_completion_tokens,
                            content@,
                        ),
                    ),
                ),
            ),
    {
        let name = cache_file_name(self.cache_key(content));
        let ghost files = file_views(directory@);
        let mut i: usize = 0;
        assert(files.skip(0) == files);
        while i < directory.len()
            invariant
                i <= directory.len(),
                files == file_views(directory@),
                name@ == file_name_of(
                    cache_key_of(self.model@, self.seed, self.max_completion_tokens, content@),
                ),
                entry_of(files, name@) == entry_of(files.skip(i as int), name@),
            decreases directory.len() - i,
        {
            let file = &directory[i];
            proof {
                let rest = files.skip(i as int);
                assert(rest[0] == file@);
                assert(rest.drop_first() == files.skip(i + 1));
                assert(entry_of(rest, name@) == if file@.name == name@ {
                    Some(file@.state)
                } else {
                    entry_of(files.skip(i + 1), name@)
                });
            }
            if file.name == name {
                match &file.state {
                    FileState::Record(record) => {
                        return Ok(Some(record.response.clone()));
                    },
                    FileState::Malformed(reason) => {
                        return Err(StorageError::Malformed(reason.clone()));
                    },
                    FileState::Unreadable(reason) => {
                        return Err(StorageError::Io(reason.clone()));
                    },
                }
            }
            i += 1;
        }
        Ok(None)
    }

    /// The file that keeps `response` as the answer for this setting and
    /// `content`: it is named by their cache key and holds the setting's
    /// fields, without the credential, and the response.
    pub fn save_cache(&self, content: &str, response: &str) -> (file: CacheFile)
        ensures
            file@ == saved_file(
                self.model@,
                self.seed,
                self.max_completion_tokens,
                content@,
                response@,
            ),
    {
        CacheFile {
            name: cache_file_name(self.cache_key(content)),
            state: FileState::Record(
                CacheRecord {
                    model: String::from_str(self.model),
                    seed: self.seed,
                    max_completion_tokens: self.max_completion_tokens,
                    response: String::from_str(response),
                },
            ),
        }
    }
}

} // verus!
