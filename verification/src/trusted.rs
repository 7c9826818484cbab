//! The calls that leave the verified code. Each function here wraps one call
//! into another crate, or into a part of the standard library that has no
//! specification: it prepares the arguments, makes the call, turns the result
//! into plain values, and states what comes back. Nothing in this file is
//! proved: the contracts are taken from the documentation and the source of
//! the code that is called.

use std::fmt::Write;
use vstd::prelude::*;
use crate::encoding::{escape, form_urlencoded};

verus! {

/// `String::push`: appends one character to a string.
#[verifier::external_body]
pub(crate) fn push_char(s: &mut String, c: char)
    ensures
        final(s)@ == old(s)@.push(c),
{
    s.push(c)
}

/// `percent_encoding::percent_encode_byte`: the percent-encoding of one
/// byte, whatever the byte: a percent sign and the byte's two hexadecimal
/// digits, letters in upper case.
#[verifier::external_body]
pub(crate) fn percent_encode_byte(byte: u8) -> (res: &'static str)
    ensures
        res@ == escape(byte),
{
    percent_encoding::percent_encode_byte(byte)
}

/// `serde_urlencoded::to_string` on a list of pairs of strings. Such a list
/// is never refused. The text is the `application/x-www-form-urlencoded`
/// serialisation of the pairs: each name and each value has its UTF-8 bytes
/// encoded one by one (letters, digits, `*`, `-`, `.` and `_` stay, a space
/// becomes `+`, any other byte becomes `%` and two upper-case hexadecimal
/// digits), name and value are joined by `=`, and the pairs by `&`.
#[verifier::external_body]
pub(crate) fn form_urlencode(pairs: &Vec<(&str, &str)>) -> (res: Option<String>)
    ensures
        res.deep_view() == Some(form_urlencoded(pairs.deep_view())),
{
    serde_urlencoded::to_string(pairs).ok()
}

/// The text of the URI that `http::uri::Builder` builds from a scheme, an
/// authority and a path with query, or `None` where it rejects one of them.
pub uninterp spec fn uri_text(
    scheme: Seq<char>,
    authority: Seq<char>,
    path_and_query: Seq<char>,
) -> Option<Seq<char>>;

/// `http::Uri::builder()` with its three parts set, then `build`, and the
/// URI printed. The builder parses each part and rejects what is not
/// valid; the result is a function of the three parts alone, and the contract
/// gives it a name and says no more of it.
#[verifier::external_body]
pub(crate) fn assemble_uri(scheme: &str, authority: &str, path_and_query: &str) -> (res: Option<
    String,
>)
    ensures
        res.deep_view() == uri_text(scheme@, authority@, path_and_query@),
{
    let built = http::Uri::builder().scheme(scheme).authority(authority).path_and_query(
        path_and_query,
    ).build();
    match built {
        Ok(uri) => Some(uri.to_string()),
        Err(_) => None,
    }
}

/// What chrono prints for the instant `seconds` after the start of 1970, in
/// UTC, under the format `pattern`; `None` where the instant is outside the
/// range of its calendar or the pattern is not a format.
pub uninterp spec fn utc_formatted(seconds: i64, pattern: Seq<char>) -> Option<Seq<char>>;

/// `chrono::DateTime::from_timestamp`, then `format` with `pattern`. The
/// result is a function of the instant and the pattern alone; the contract
/// gives it a name and says no more of it.
#[verifier::external_body]
pub(crate) fn format_utc(seconds: i64, pattern: &str) -> (res: Option<String>)
    ensures
        res.deep_view() == utc_formatted(seconds, pattern@),
{
    let instant = chrono::DateTime::from_timestamp(seconds, 0)?;
    let mut out = String::new();
    match write!(out, "{}", instant.format(pattern)) {
        Ok(_) => Some(out),
        Err(_) => None,
    }
}

/// The text that the first capture group of the regular expression
/// `pattern` matches in `text`, at the leftmost match; `None` where the
/// pattern does not compile, nothing matches, or the group takes no part in
/// the match.
pub uninterp spec fn regex_group_one(pattern: Seq<char>, text: Seq<char>) -> Option<Seq<char>>;

/// `regex::Regex::new`, then `captures` and the group at index 1. The result
/// is a function of the pattern and the text alone; the contract gives it a
/// name and says no more of it.
#[verifier::external_body]
pub(crate) fn regex_first_group(pattern: &str, text: &str) -> (res: Option<String>)
    ensures
        res.deep_view() == regex_group_one(pattern@, text@),
{
    let re = regex::Regex::new(pattern).ok()?;
    let found = re.captures(text)?;
    let group = found.get(1)?;
    Some(group.as_str().to_string())
}

} // verus!
