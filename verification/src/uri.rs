//! The target of a request.
use vstd::prelude::*;

verus! {

/// A URI, by its parts.
#[derive(Debug, PartialEq, Eq)]
pub struct Uri {
    pub scheme: Option<String>,
    pub authority: Option<String>,
    pub path: String,
    pub query: Option<String>,
}

/// The parts of a URI.
pub struct UriParts {
    pub scheme: Option<Seq<char>>,
    pub authority: Option<Seq<char>>,
    pub path: Seq<char>,
    pub query: Option<Seq<char>>,
}

/// What is in an optional string.
pub open spec fn text(string: Option<String>) -> Option<Seq<char>> {
    match string {
        Some(string) => Some(string@),
        None => None,
    }
}

impl View for Uri {
    type V = UriParts;

    open spec fn view(&self) -> UriParts {
        UriParts {
            scheme: text(self.scheme),
            authority: text(self.authority),
            path: self.path@,
            query: text(self.query),
        }
    }
}

/// The parts that `http::Uri` reads from a text, or `None` if it is no URI.
pub uninterp spec fn uri_parts(text: Seq<char>) -> Option<UriParts>;

/// `text` starts with `prefix`.
pub open spec fn starts_with(text: Seq<char>, prefix: Seq<char>) -> bool {
    text.len() >= prefix.len() && text.subrange(0, prefix.len() as int) == prefix
}

/// `http::Uri`'s `from_str`, and the accessors of the parts that it reads.
/// Which texts are URIs, and what their parts are, is named, not spelled out;
/// beside that, a URI that starts as an `http` or `https` one has that scheme,
/// and an authority.
#[verifier::external_body]
pub(crate) fn parse_uri(source: &str) -> (parsed: Option<Uri>)
    ensures
        match parsed {
            Some(uri) => uri_parts(source@) == Some(uri@),
            None => uri_parts(source@) is None,
        },
        parsed matches Some(uri) ==> {
            &&& starts_with(source@, "http://"@) ==> uri@.scheme == Some("http"@)
            &&& starts_with(source@, "https://"@) ==> uri@.scheme == Some("https"@)
            &&& starts_with(source@, "http://"@) || starts_with(source@, "https://"@)
                ==> uri@.authority is Some
        },
{
    source.parse::<http::Uri>().ok().map(
        |uri| Uri {
            scheme: uri.scheme_str().map(|scheme| scheme.to_string()),
            authority: uri.authority().map(|authority| authority.as_str().to_string()),
            path: uri.path().to_string(),
            query: uri.query().map(|query| query.to_string()),
        },
    )
}

} // verus!
