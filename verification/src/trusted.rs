//! The calls into the `url` and `hyper` crates.
//!
//! Nothing in this file is proved. Each function below makes one outside
//! computation, and its contract only gives that computation's result a name,
//! so that the verified code around it can say exactly what it hands to the
//! outside crate and what it does with the answer.

use crate::pairs::{views, NameValue};
use hyper::header::Header;
use vstd::prelude::*;

verus! {

/// What `url::Url::parse` makes of `input`: the serialization of the parsed
/// URL, or `None` where the parser returns an error, as it does for whatever
/// is not an absolute URL.
pub uninterp spec fn parsed_url(input: Seq<char>) -> Option<Seq<char>>;

/// What `url::Url::join` makes of `reference` against the URL whose
/// serialization is `base`: the serialization of the resulting URL, or `None`
/// where `base` is no URL or the reference cannot be resolved against it.
pub uninterp spec fn joined_url(base: Seq<char>, reference: Seq<char>) -> Option<Seq<char>>;

/// The `application/x-www-form-urlencoded` body that
/// `url::form_urlencoded::Serializer` writes for `fields`, in their order.
pub uninterp spec fn form_urlencoded(fields: Seq<(Seq<char>, Seq<char>)>) -> Seq<char>;

/// The cookies that hyper's `Cookie` header parser finds in one header line,
/// in the order in which `Cookie::iter` yields them, or `None` where the
/// parser rejects the line.
pub uninterp spec fn cookie_pairs(line: Seq<char>) -> Option<Seq<(Seq<char>, Seq<char>)>>;

/// The error of the `url` crate's parser. Carried through, never inspected.
#[verifier::external_type_specification]
#[verifier::external_body]
pub struct ExUrlParseError(url::ParseError);

/// The error of hyper's header parsers. Carried through, never inspected.
#[verifier::external_type_specification]
#[verifier::external_body]
pub struct ExHyperError(hyper::Error);

/// Calls `url::Url::parse` and returns the serialization of the URL it
/// yields (`Url::into_string`), or the parser's error. Trusted: that the
/// result is a function of the input text, named `parsed_url`.
#[verifier::external_body]
pub(crate) fn parse_url(input: &str) -> (r: Result<String, url::ParseError>)
    ensures
        match r {
            Ok(text) => parsed_url(input@) == Some(text@),
            Err(_) => parsed_url(input@) is None,
        },
{
    url::Url::parse(input).map(url::Url::into_string)
}

/// Calls `url::Url::join` on the URL read back from `base` and returns the
/// serialization of the URL it yields, or the parser's error where `base`
/// does not parse or the join fails. Trusted: that the result is a function
/// of the two texts, named `joined_url`.
#[verifier::external_body]
pub(crate) fn join_url(base: &str, reference: &str) -> (r: Result<String, url::ParseError>)
    ensures
        match r {
            Ok(text) => joined_url(base@, reference@) == Some(text@),
            Err(_) => joined_url(base@, reference@) is None,
        },
{
    url::Url::parse(base)?.join(reference).map(url::Url::into_string)
}

/// Feeds `fields` to a fresh `url::form_urlencoded::Serializer` over an empty
/// string (`extend_pairs`, which appends pair by pair) and returns what
/// `finish` hands back. Trusted: that the body is a function of the fields'
/// names and values in their order, named `form_urlencoded`.
#[verifier::external_body]
pub(crate) fn encode_form(fields: &Vec<NameValue>) -> (r: String)
    ensures
        r@ == form_urlencoded(views(fields@)),
{
    url::form_urlencoded::Serializer::new(String::new())
        .extend_pairs(fields.iter().map(|f| (f.name.as_str(), f.value.as_str())))
        .finish()
}

/// Hands one header line to hyper's `Cookie::parse_header` and returns the
/// name and value of each cookie that `Cookie::iter` yields, or the parser's
/// error. Trusted: that the result is a function of the line, named
/// `cookie_pairs`.
#[verifier::external_body]
pub(crate) fn parse_cookie_line(line: &str) -> (r: Result<Vec<NameValue>, hyper::Error>)
    ensures
        match r {
            Ok(found) => cookie_pairs(line@) == Some(views(found@)),
            Err(_) => cookie_pairs(line@) is None,
        },
{
    let parsed = hyper::header::Cookie::parse_header(&hyper::header::Raw::from(line))?;
    Ok(parsed.iter().map(|(k, v)| NameValue::new(k, v)).collect())
}

} // verus!
