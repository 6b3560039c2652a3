//! Reading a URL.

use vstd::prelude::*;

verus! {

/// The normal form of the URL that `text` spells, or nothing where `text`
/// spells no URL. What a URL is, and what its normal form is, is for the
/// `url` crate to say.
pub uninterp spec fn parsed_href(text: Seq<char>) -> Option<Seq<char>>;

/// Reads a URL with `url::Url::parse` and gives its serialization.
///
/// Trusted: the parser is taken to be a function of the text alone, which
/// `parsed_href` names. Nothing is claimed of which texts are URLs.
#[verifier::external_body]
pub(crate) fn parse_href(text: &str) -> (r: Option<String>)
    ensures
        r.deep_view() == parsed_href(text@),
{
    match url::Url::parse(text) {
        Ok(url) => Some(String::from(url)),
        Err(_) => None,
    }
}

} // verus!
