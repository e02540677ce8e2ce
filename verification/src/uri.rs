//! Parsing of the storage location.

use vstd::prelude::*;

verus! {

/// The error of the URL parser, carried through as it is.
#[verifier::external_type_specification]
#[verifier::external_body]
pub struct ExParseError(url::ParseError);

/// The path component of `input` read as an absolute URL, or `None` where
/// `input` is no absolute URL.
pub uninterp spec fn url_path(input: Seq<char>) -> Option<Seq<char>>;

/// Calls `url::Url::parse` and, on success, `url::Url::path` on the parsed URL.
///
/// Trusted: whether `input` parses, and the path of what it parses to, are
/// taken to depend on `input` alone. Nothing is claimed about which inputs
/// parse or what their path is.
#[verifier::external_body]
pub(crate) fn parse_url_path(input: &str) -> (parsed: Result<String, url::ParseError>)
    ensures
        match parsed {
            Ok(path) => url_path(input@) == Some(path@),
            Err(_) => url_path(input@) is None,
        },
{
    match url::Url::parse(input) {
        Ok(url) => Ok(url.path().to_string()),
        Err(error) => Err(error),
    }
}

} // verus!
