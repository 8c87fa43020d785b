//! [Sqlite](https://www.sqlite.org/index.html) is one of the supported
//! databases of Ncube. Sqlite databases can be created in memory or as a
//! file on-disk. The connection string for in-memory databases is
//! `sqlite://:memory:` and the connection string for file based databases
//! is `sqlite://path/to/file.db`.
use vstd::prelude::*;
use crate::text::str_equal;
use vstd::std_specs::cmp::PartialEqSpec;
use vstd::std_specs::cmp::PartialEqSpecImpl;

verus! {

/// The prefix every sqlite connection string starts with.
pub open spec fn url_prefix() -> Seq<char> {
    "sqlite://"@
}

/// The connection path that selects an in-memory database.
pub open spec fn memory_path() -> Seq<char> {
    ":memory:"@
}

/// What remains of `s` once the `sqlite://` prefix is removed, if `s`
/// starts with it.
pub open spec fn strip_url_prefix(s: Seq<char>) -> Option<Seq<char>> {
    if url_prefix().is_prefix_of(s) {
        Some(s.skip(url_prefix().len() as int))
    } else {
        None
    }
}

/// The mathematical form of a database source.
pub enum SourceSpec {
    File(Seq<char>),
    Memory,
}

/// The source a connection path denotes.
pub open spec fn source_of_path(path: Seq<char>) -> SourceSpec {
    if path == memory_path() {
        SourceSpec::Memory
    } else {
        SourceSpec::File(path)
    }
}

/// The source that a connection string denotes, or `None` when the string
/// is no sqlite connection string.
pub open spec fn url_source(s: Seq<char>) -> Option<SourceSpec> {
    match strip_url_prefix(s) {
        Some(path) => Some(source_of_path(path)),
        None => None,
    }
}

/// The error returned when a string is no sqlite connection string.
#[derive(Debug)]
pub struct ConfigError;

/// Whether `std::path::Path` holds the two paths equal: equal paths have
/// the same components, so `a//b`, `a/./b` and `a/b/` equal `a/b`.
pub uninterp spec fn spec_path_eq(a: Seq<char>, b: Seq<char>) -> bool;

/// Compares the two paths with `PartialEq` of `std::path::Path`. Trusted:
/// the result is named by `spec_path_eq`, a function of the two paths
/// alone.
#[verifier::external_body]
fn path_eq(a: &str, b: &str) -> (equal: bool)
    ensures
        equal == spec_path_eq(a@, b@),
{
    std::path::Path::new(a) == std::path::Path::new(b)
}

/// Where a sqlite database lives: in a file on disk or in memory. Two file
/// sources are equal when their paths are, component by component.
#[derive(Debug, Clone)]
pub enum Source {
    File(String),
    Memory,
}

/// Whether two sources are the same: both in memory, or both files whose
/// paths are equal.
pub open spec fn same_source(a: &Source, b: &Source) -> bool {
    match (a, b) {
        (Source::File(p), Source::File(q)) => spec_path_eq(p@, q@),
        (Source::Memory, Source::Memory) => true,
        _ => false,
    }
}

impl PartialEq for Source {
    fn eq(&self, other: &Source) -> (equal: bool) {
        match (self, other) {
            (Source::File(p), Source::File(q)) => path_eq(p.as_str(), q.as_str()),
            (Source::Memory, Source::Memory) => true,
            _ => false,
        }
    }
}

impl PartialEqSpecImpl for Source {
    open spec fn obeys_eq_spec() -> bool {
        true
    }

    open spec fn eq_spec(&self, other: &Source) -> bool {
        same_source(self, other)
    }
}

impl Eq for Source {
}

impl View for Source {
    type V = SourceSpec;

    open spec fn view(&self) -> SourceSpec {
        match self {
            Source::File(path) => SourceSpec::File(path@),
            Source::Memory => SourceSpec::Memory,
        }
    }
}

/// The Sqlite database configuration object. Right now Sqlite databases
/// only require a connection string. The `Config` object can easily be
/// parsed from that.
#[derive(Debug, Clone, PartialEq, Eq)]
pub struct Config {
    pub source: Source,
}

impl View for Config {
    type V = SourceSpec;

    open spec fn view(&self) -> SourceSpec {
        self.source@
    }
}

impl Default for Config {
    fn default() -> (config: Self)
        ensures
            config@ == SourceSpec::Memory,
    {
        Config { source: Source::Memory }
    }
}

/// Parser of sqlite connection strings.
pub struct UrlParser;

impl UrlParser {
    /// Parse a connection string. A string without the `sqlite://` prefix
    /// yields `Ok(None)`; `sqlite://:memory:` yields an in-memory
    /// configuration and any other `sqlite://<path>` a file configuration
    /// for `<path>`.
    pub fn parse(s: &str) -> (result: Result<Option<Config>, ConfigError>)
        ensures
            result matches Ok(parsed) && match parsed {
                Some(config) => url_source(s@) == Some(config@),
                None => url_source(s@) is None,
            },
    {
        let path = match Self::remove_url_prefix(s) {
            Some(path) => path,
            None => return Ok(None),
        };
        if str_equal(path, ":memory:") {
            return Ok(Some(Config { source: Source::Memory }));
        }
        Ok(Some(Config { source: Source::File(path.to_owned()) }))
    }

    /// Remove the `sqlite://` prefix of a connection string, or return
    /// `None` if the string does not start with it.
    pub fn remove_url_prefix(s: &str) -> (rest: Option<&str>)
        ensures
            match rest {
                Some(r) => strip_url_prefix(s@) == Some(r@),
                None => strip_url_prefix(s@) is None,
            },
    {
        let prefix = "sqlite://";
        proof {
            reveal_strlit("sqlite://");
        }
        let prefix_len = prefix.unicode_len();
        let len = s.unicode_len();
        if len < prefix_len {
            return None;
        }
        let mut i: usize = 0;
        while i < prefix_len
            invariant
                prefix@ == url_prefix(),
                prefix_len == prefix@.len(),
                len == s@.len(),
                prefix_len <= len,
                i <= prefix_len,
                forall|j: int| 0 <= j < i ==> s@[j] == prefix@[j],
            decreases prefix_len - i,
        {
            if s.get_char(i) != prefix.get_char(i) {
                return None;
            }
            i = i + 1;
        }
        assert(url_prefix().is_prefix_of(s@));
        Some(s.substring_char(prefix_len, len))
    }
}

impl Config {
    /// Parse a configuration from a connection string: `Err(ConfigError)`
    /// exactly when the string does not start with `sqlite://`.
    pub fn from_str(s: &str) -> (result: Result<Config, ConfigError>)
        ensures
            match result {
                Ok(config) => url_source(s@) == Some(config@),
                Err(_) => url_source(s@) is None,
            },
    {
        match UrlParser::parse(s)? {
            Some(config) => Ok(config),
            None => Err(ConfigError),
        }
    }
}

impl std::str::FromStr for Config {
    type Err = ConfigError;

    fn from_str(s: &str) -> (result: Result<Config, ConfigError>)
        ensures
            match result {
                Ok(config) => url_source(s@) == Some(config@),
                Err(_) => url_source(s@) is None,
            },
    {
        Config::from_str(s)
    }
}

/// The connection string `sqlite://:memory:` denotes the default
/// configuration, an in-memory database.
pub proof fn lemma_memory_url_is_default()
    ensures
        url_source("sqlite://:memory:"@) == Some(SourceSpec::Memory),
{
    reveal_strlit("sqlite://:memory:");
    reveal_strlit("sqlite://");
    reveal_strlit(":memory:");
    assert(url_prefix().is_prefix_of("sqlite://:memory:"@));
    assert("sqlite://:memory:"@.skip(9) =~= memory_path());
}

/// `sqlite://<path>` denotes the file at `<path>`, for every path other
/// than `:memory:`.
pub proof fn lemma_file_url(path: Seq<char>)
    requires
        path != memory_path(),
    ensures
        url_source(url_prefix() + path) == Some(SourceSpec::File(path)),
{
    let s = url_prefix() + path;
    assert(s.subrange(0, url_prefix().len() as int) =~= url_prefix());
    assert(s.skip(url_prefix().len() as int) =~= path);
}

/// A string is a connection string exactly when the prefix can be removed
/// from it, and then the path it denotes is what remains.
pub proof fn lemma_parse_is_prefix_removal(s: Seq<char>)
    ensures
        url_source(s) is Some <==> strip_url_prefix(s) is Some,
        strip_url_prefix(s) matches Some(path) ==> url_source(s) == Some(source_of_path(path)),
        strip_url_prefix(s) matches Some(path) ==> s == url_prefix() + path,
{
    if let Some(path) = strip_url_prefix(s) {
        assert(s =~= url_prefix() + path);
    }
}

/// Two file sources are equal exactly when `std::path::Path` holds their
/// paths equal; an in-memory source equals only an in-memory source.
pub proof fn lemma_source_equality(p: String, q: String)
    ensures
        PartialEqSpec::eq_spec(&Source::File(p), &Source::File(q)) == spec_path_eq(p@, q@),
        PartialEqSpec::eq_spec(&Source::Memory, &Source::Memory),
        !PartialEqSpec::eq_spec(&Source::File(p), &Source::Memory),
        !PartialEqSpec::eq_spec(&Source::Memory, &Source::File(q)),
{
}

} // verus!
