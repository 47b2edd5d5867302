//! URL parsing, by the `url` crate (WHATWG URL Standard).
use vstd::prelude::*;

verus! {

/// What the library reads of a parsed URL.
pub struct UrlParts {
    pub scheme: Seq<char>,
    pub host: Option<Seq<char>>,
    pub path: Seq<char>,
    /// The normalized serialization (`Url::as_str`, also its `Display`).
    pub serialization: Seq<char>,
}

/// The components of a parsed URL.
#[derive(Clone, Debug)]
pub struct ParsedUrl {
    pub scheme: String,
    pub host: Option<String>,
    pub path: String,
    pub serialization: String,
}

impl View for ParsedUrl {
    type V = UrlParts;

    open spec fn view(&self) -> UrlParts {
        UrlParts {
            scheme: self.scheme@,
            host: match self.host {
                Some(h) => Some(h@),
                None => None,
            },
            path: self.path@,
            serialization: self.serialization@,
        }
    }
}

/// The view of a parse outcome.
pub open spec fn parse_outcome(r: Result<ParsedUrl, String>) -> Result<UrlParts, Seq<char>> {
    match r {
        Ok(u) => Ok(u@),
        Err(e) => Err(e@),
    }
}

/// The outcome of `url::Url::parse` on a string: the parsed components, or
/// the `Display` text of the parse error.
pub uninterp spec fn url_parse(input: Seq<char>) -> Result<UrlParts, Seq<char>>;

/// `url::Url::parse(input)`, read through `scheme()`, `host_str()`,
/// `path()` and `as_str()`, or the parse error's `to_string()`. The contract
/// claims only that the outcome is the named function `url_parse` of the
/// input's characters, so that parsing the same text twice agrees.
#[verifier::external_body]
pub fn parse_url(input: &str) -> (r: Result<ParsedUrl, String>)
    ensures
        parse_outcome(r) == url_parse(input@),
{
    match ::url::Url::parse(input) {
        Ok(u) => Ok(ParsedUrl {
            scheme: u.scheme().to_string(),
            host: match u.host_str() {
                Some(h) => Some(h.to_string()),
                None => None,
            },
            path: u.path().to_string(),
            serialization: u.as_str().to_string(),
        }),
        Err(e) => Err(e.to_string()),
    }
}

} // verus!
