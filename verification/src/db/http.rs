//! When connecting to a remote Ncube installation all requests are done
//! using HTTP. Internally the HTTP endpoint is treated like a database; its
//! configuration is the endpoint URL.
use vstd::prelude::*;
use crate::text::str_equal;

verus! {

/// The serialization of the URL that `url::Url::parse` makes of `input`,
/// or `None` when it rejects the input.
pub uninterp spec fn spec_url_parse(input: Seq<char>) -> Option<Seq<char>>;

/// Whether `s` is the serialization of a URL: the parser gives it back
/// unchanged.
pub open spec fn is_serialization(s: Seq<char>) -> bool {
    spec_url_parse(s) == Some(s)
}

/// Calls `url::Url::parse` on `input`. Trusted: the result is the
/// serialization (`String::from(url)`) of the parsed URL, or `None` when
/// the parser returns an error; both are named by `spec_url_parse`, a
/// function of the input alone. A serialization parses back to itself:
/// the url crate checks that of every URL it builds (`check_invariants`
/// asserts that `Url::parse(self.as_str())` has the same serialization).
#[verifier::external_body]
fn url_parse(input: &str) -> (serialization: Option<String>)
    ensures
        serialization.deep_view() == spec_url_parse(input@),
        serialization matches Some(s) ==> is_serialization(s@),
{
    match url::Url::parse(input) {
        Ok(url) => Some(String::from(url)),
        Err(_) => None,
    }
}

/// The serialization of the URL `endpoint` once `url::Url::set_path` gave
/// it the path `path`, or `None` when `endpoint` does not parse as a URL.
pub uninterp spec fn spec_url_with_path(endpoint: Seq<char>, path: Seq<char>) -> Option<Seq<char>>;

/// Whether the URL that `set_path` builds from a serialization `endpoint`
/// fits the 4 GB (`u32`) limit of the url crate's positions. Parsing a
/// serialization gives it back unchanged, so the URL before the change
/// takes at most 4 bytes per char of `endpoint`; every char of the path
/// takes at most 12 bytes once percent-encoded, and the path may gain a
/// leading `/` or have one replaced by `%2F`.
pub open spec fn url_within_limit(endpoint: Seq<char>, path: Seq<char>) -> bool {
    4 * endpoint.len() + 12 * path.len() + 3 <= u32::MAX
}

/// Calls `url::Url::set_path` with `path` on the URL that `endpoint`
/// serializes. Trusted: the result is the serialization of the changed URL,
/// or `None` when `endpoint` does not parse as a URL; both are named by
/// `spec_url_with_path`, a function of the two arguments alone.
/// `set_path` panics when the new URL passes 4 GB; the requirements leave
/// those inputs out: `endpoint` is a serialization, so parsing it again
/// gives back the same string, and its length and the path's are bounded.
#[verifier::external_body]
fn url_with_path(endpoint: &str, path: &str) -> (serialization: Option<String>)
    requires
        is_serialization(endpoint@),
        url_within_limit(endpoint@, path@),
    ensures
        serialization.deep_view() == spec_url_with_path(endpoint@, path@),
{
    match url::Url::parse(endpoint) {
        Ok(mut url) => {
            url.set_path(path);
            Some(String::from(url))
        },
        Err(_) => None,
    }
}

/// The endpoint of a local Ncube installation.
pub open spec fn default_endpoint() -> Seq<char> {
    "http://127.0.0.1:40666"@
}

/// The error returned when a string is no valid endpoint URL.
#[derive(Debug)]
pub struct HttpConfigError;

impl HttpConfigError {
    /// The message of this error.
    pub fn to_string(&self) -> (message: String)
        ensures
            message@ == "HttpConfigError"@,
    {
        String::from_str("HttpConfigError")
    }
}

/// The configuration of a remote Ncube database: the endpoint URL, held as
/// its serialization (two URLs are equal exactly when their serializations
/// are).
#[derive(Debug, Clone, PartialEq, Eq)]
pub struct Config {
    pub endpoint: String,
}

impl Config {
    /// Parse an endpoint URL: `Ok` with the URL's serialization exactly
    /// when the URL parser accepts the string.
    pub fn from_str(s: &str) -> (result: Result<Config, HttpConfigError>)
        ensures
            match result {
                Ok(config) => spec_url_parse(s@) == Some(config.endpoint@) && is_serialization(
                    config.endpoint@,
                ),
                Err(_) => spec_url_parse(s@) is None,
            },
    {
        match url_parse(s) {
            Some(endpoint) => Ok(Config { endpoint }),
            None => Err(HttpConfigError),
        }
    }

    /// The URL of `path` on the endpoint: the endpoint with its path
    /// replaced by `path`. The endpoint must be a URL serialization, and the
    /// endpoint and the path short enough for the URL to stay under the url
    /// crate's 4 GB limit.
    pub fn url(&self, path: &str) -> (url: Option<String>)
        requires
            is_serialization(self.endpoint@),
            url_within_limit(self.endpoint@, path@),
        ensures
            url.deep_view() == spec_url_with_path(self.endpoint@, path@),
    {
        url_with_path(self.endpoint.as_str(), path)
    }

    /// The URL of `path` on the endpoint, as `url` gives it, where `url`
    /// may be called: when the endpoint is a URL serialization and the URL
    /// stays under the 4 GB limit. `None` otherwise.
    pub fn checked_url(&self, path: &str) -> (url: Option<String>)
        ensures
            is_serialization(self.endpoint@) && url_within_limit(self.endpoint@, path@)
                ==> url.deep_view() == spec_url_with_path(self.endpoint@, path@),
            !(is_serialization(self.endpoint@) && url_within_limit(self.endpoint@, path@))
                ==> url is None,
            is_serialization(self.endpoint@) && 4 * self.endpoint@.len() + 12 * path@.len() + 3
                <= 4294967295 ==> url.deep_view() == spec_url_with_path(self.endpoint@, path@),
    {
        let endpoint_len = self.endpoint.as_str().unicode_len();
        let path_len = path.unicode_len();
        if endpoint_len > 1073741823 || path_len > 357913941 {
            return None;
        }
        let endpoint_len = endpoint_len as u64;
        let path_len = path_len as u64;
        if 4 * endpoint_len + 12 * path_len + 3 > 4294967295 {
            return None;
        }
        let reparsed = url_parse(self.endpoint.as_str());
        match reparsed {
            Some(serialization) => {
                if !str_equal(serialization.as_str(), self.endpoint.as_str()) {
                    return None;
                }
                self.url(path)
            },
            None => None,
        }
    }
}

impl Default for Config {
    /// The endpoint of a local installation, `http://127.0.0.1:40666`,
    /// as the URL parser serializes it.
    fn default() -> (config: Self)
        ensures
            spec_url_parse(default_endpoint()) matches Some(e) ==> config.endpoint@ == e
                && is_serialization(e),
            spec_url_parse(default_endpoint()) is None ==> config.endpoint@ == default_endpoint(),
            spec_url_parse("http://127.0.0.1:40666"@) matches Some(e) ==> config.endpoint@ == e,
            spec_url_parse("http://127.0.0.1:40666"@) is None ==> config.endpoint@
                == "http://127.0.0.1:40666"@,
    {
        let endpoint = "http://127.0.0.1:40666";
        match url_parse(endpoint) {
            Some(serialization) => Config { endpoint: serialization },
            None => Config { endpoint: String::from_str(endpoint) },
        }
    }
}

impl std::str::FromStr for Config {
    type Err = HttpConfigError;

    fn from_str(s: &str) -> (result: Result<Config, HttpConfigError>)
        ensures
            match result {
                Ok(config) => spec_url_parse(s@) == Some(config.endpoint@),
                Err(_) => spec_url_parse(s@) is None,
            },
    {
        Config::from_str(s)
    }
}

} // verus!
