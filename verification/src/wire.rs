//! The outside codecs that turn a query into a request address.
//!
//! The library does not encode parameters or parse addresses itself:
//! `serde_urlencoded` and `url` do. This module states what their functions
//! return. These statements are taken from the two crates as they are, not
//! proved; everything else in the library, [`with_query`] included, is verified
//! against them.

use vstd::prelude::*;
use url::Url;
use crate::error::RequestError;

verus! {

/// The longest address text, and the longest query text, counted in
/// characters, that the library hands to [`Url::set_query`].
pub const TEXT_LIMIT: usize = 16777216;

/// `url::Url`, an address that has been parsed. All that can be observed of
/// such an address follows from its serialization, [`url_text`], which is the
/// only content of it that the library speaks of.
#[verifier::external_type_specification]
#[verifier::external_body]
pub struct ExUrl(url::Url);

/// `url::ParseError`, the reason why a text is no address.
#[verifier::external_type_specification]
#[verifier::external_body]
pub struct ExParseError(url::ParseError);

/// `serde_urlencoded::ser::Error`, the reason why a value has no
/// `application/x-www-form-urlencoded` form.
#[verifier::external_type_specification]
#[verifier::external_body]
pub struct ExFormError(serde_urlencoded::ser::Error);

/// The serialization of an address: what `Url::as_str` returns for it.
pub uninterp spec fn url_text(url: Url) -> Seq<char>;

/// The serialization of the address that `Url::parse` reads from `input`, or
/// `None` where it reads none.
pub uninterp spec fn url_parsed(input: Seq<char>) -> Option<Seq<char>>;

/// The serialization of an address after `Url::set_query` has replaced its
/// query with `query`, given its serialization `text` before.
pub uninterp spec fn url_with_query(text: Seq<char>, query: Seq<char>) -> Seq<char>;

/// The text that `serde_urlencoded::to_string` makes of a list of pairs of
/// texts, or `None` where it fails.
pub uninterp spec fn form_urlencoded(pairs: Seq<(Seq<char>, Seq<char>)>) -> Option<Seq<char>>;

/// `Url::parse`: the parsed address has the serialization that [`url_parsed`]
/// names, and the call fails exactly where `url_parsed` has none.
pub assume_specification[ Url::parse ](input: &str) -> (parsed: Result<Url, url::ParseError>)
    ensures
        match parsed {
            Ok(url) => url_parsed(input@) == Some(url_text(url)),
            Err(_) => url_parsed(input@).is_none(),
        },
;

/// `Url::as_str`: the serialization of the address.
pub assume_specification<'a>[ Url::as_str ](url: &'a Url) -> (text: &'a str)
    ensures
        text@ == url_text(*url),
;

/// `Url::set_query` with `Some(query)`: afterwards the address has the
/// serialization that [`url_with_query`] names.
///
/// The function stores byte offsets into the serialization as `u32` and
/// panics where one does not fit. The offsets it stores are at most the length
/// of the old serialization plus one plus three times the length of `query`,
/// all in bytes, and a character has at most four bytes; under
/// [`TEXT_LIMIT`] that stays below `u32::MAX`.
pub assume_specification[ Url::set_query ](url: &mut Url, query: Option<&str>)
    requires
        query is Some ==> url_text(*old(url)).len() <= TEXT_LIMIT,
        query is Some ==> query.unwrap()@.len() <= TEXT_LIMIT,
    ensures
        query is Some ==> url_text(*final(url)) == url_with_query(
            url_text(*old(url)),
            query.unwrap()@,
        ),
;

/// `serde_urlencoded::to_string` on a list of pairs of texts: the text that
/// [`form_urlencoded`] names, and an error exactly where it names none.
#[verifier::external_body]
pub(crate) fn form_encode(pairs: &Vec<(String, String)>) -> (encoded: Result<
    String,
    serde_urlencoded::ser::Error,
>)
    ensures
        match encoded {
            Ok(text) => form_urlencoded(pairs.deep_view()) == Some(text@),
            Err(_) => form_urlencoded(pairs.deep_view()).is_none(),
        },
{
    serde_urlencoded::to_string(pairs)
}

/// The request address for `query` at the address `base`: `base` parsed, with
/// its query replaced. There is none where `base` is no address, nor where the
/// parsed address or the query is longer than [`TEXT_LIMIT`].
pub open spec fn request_text(base: Seq<char>, query: Seq<char>) -> Result<Seq<char>, RequestError> {
    match url_parsed(base) {
        None => Err(RequestError::Endpoint),
        Some(text) => if text.len() <= TEXT_LIMIT && query.len() <= TEXT_LIMIT {
            Ok(url_with_query(text, query))
        } else {
            Err(RequestError::TooLong)
        },
    }
}

/// Parses `base` and replaces its query with `query`.
pub fn with_query(base: &str, query: &str) -> (address: Result<String, RequestError>)
    ensures
        match address {
            Ok(text) => request_text(base@, query@) == Ok::<Seq<char>, RequestError>(text@),
            Err(why) => request_text(base@, query@) == Err::<Seq<char>, RequestError>(why),
        },
{
    match Url::parse(base) {
        Ok(mut url) => {
            if url.as_str().unicode_len() <= TEXT_LIMIT && query.unicode_len() <= TEXT_LIMIT {
                url.set_query(Some(query));
                Ok(String::from_str(url.as_str()))
            } else {
                Err(RequestError::TooLong)
            }
        },
        Err(_) => Err(RequestError::Endpoint),
    }
}

} // verus!
