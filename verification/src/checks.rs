//! Building blocks shared by the models: identifier checks, the first
//! failing check of a list, text views of optional fields, and the
//! sanitization of optional text and of URL lists.
use vstd::prelude::*;

use crate::common::{sanitize_url, sanitized_url};
use crate::ids::{
    check_timestamp_id, crockford_decode, id_check_outcome, id_length_error, id_rejection,
};
use crate::message::{text, ErrorMessage, Piece};
use crate::text::{decimal, push_decimal, trim, trimmed};
use vstd::string::StringSliceAdditionalSpecFns;

verus! {

/// The failure an identifier check reports, if any.
pub open spec fn id_error(v: Option<Result<(), String>>) -> Option<Seq<Piece>> {
    match v {
        Some(Err(e)) => Some(text(e@)),
        _ => None,
    }
}

/// `v` is an outcome the identifier check can give for `id`: none when no
/// identifier is given, otherwise one that `TimestampId::validate_id` can
/// give (exact but for the clock).
pub open spec fn is_id_verdict(id: Option<&str>, v: Option<Result<(), String>>) -> bool {
    match id {
        None => v is None,
        Some(s) => v matches Some(r) && id_check_outcome(s.spec_bytes().len(), crockford_decode(s@), r),
    }
}

/// Checks the timestamp identifier, when one is given.
pub fn check_id(id: Option<&str>) -> (v: Option<Result<(), String>>)
    ensures
        is_id_verdict(id, v),
{
    match id {
        None => None,
        Some(s) => Some(check_timestamp_id(s)),
    }
}

/// An identifier that the clock-free rules reject (wrong length, not
/// Crockford Base32, not 8 bytes, before 2024-10-01) is reported with that
/// rule's message, whatever the clock reads; a model validated with it
/// fails first with that message.
pub proof fn rejected_id_is_reported(id: &str, v: Option<Result<(), String>>)
    requires
        is_id_verdict(Some(id), v),
        id_rejection(id.spec_bytes().len(), crockford_decode(id@)) is Some,
    ensures
        id_error(v) == Some(text(id_rejection(id.spec_bytes().len(), crockford_decode(id@)).unwrap())),
{
}

/// An identifier of the wrong length is reported as such.
pub proof fn wrong_length_id_is_reported(id: &str, v: Option<Result<(), String>>)
    requires
        is_id_verdict(Some(id), v),
        id.spec_bytes().len() != 13,
    ensures
        id_error(v) == Some(text(id_length_error())),
{
}

/// The first failure among checks `f(from)`, ..., `f(to - 1)`.
pub open spec fn first_failure(f: spec_fn(int) -> Option<Seq<Piece>>, from: int, to: int) -> Option<
    Seq<Piece>,
>
    decreases to - from,
{
    if from >= to {
        None
    } else {
        match f(from) {
            Some(e) => Some(e),
            None => first_failure(f, from + 1, to),
        }
    }
}

/// When no check among `f(from)`, ..., `f(to - 1)` fails, none of them does.
pub proof fn lemma_no_failure(f: spec_fn(int) -> Option<Seq<Piece>>, from: int, to: int, i: int)
    requires
        first_failure(f, from, to) is None,
        from <= i < to,
    ensures
        f(i) is None,
    decreases to - from,
{
    if from < i {
        lemma_no_failure(f, from + 1, to, i);
    }
}

/// Text of an optional string field.
pub open spec fn opt_text(o: Option<String>) -> Option<Seq<char>> {
    match o {
        Some(s) => Some(s@),
        None => None,
    }
}

/// Texts of a list of strings.
pub open spec fn texts(v: Vec<String>) -> Seq<Seq<char>> {
    v@.map_values(|s: String| s@)
}

/// Texts of an optional list of strings.
pub open spec fn opt_texts(o: Option<Vec<String>>) -> Option<Seq<Seq<char>>> {
    match o {
        Some(v) => Some(texts(v)),
        None => None,
    }
}

/// An optional text, trimmed.
pub open spec fn opt_trimmed(o: Option<Seq<char>>) -> Option<Seq<char>> {
    match o {
        Some(s) => Some(trimmed(s)),
        None => None,
    }
}

/// Every URL of a list, sanitized.
pub open spec fn sanitized_urls(v: Seq<Seq<char>>) -> Seq<Seq<char>> {
    v.map_values(|s: Seq<char>| sanitized_url(s))
}

/// An optional URL, sanitized.
pub open spec fn opt_sanitized_url(o: Option<Seq<char>>) -> Option<Seq<char>> {
    match o {
        Some(s) => Some(sanitized_url(s)),
        None => None,
    }
}

/// An optional list of URLs, sanitized.
pub open spec fn opt_sanitized_urls(o: Option<Seq<Seq<char>>>) -> Option<Seq<Seq<char>>> {
    match o {
        Some(v) => Some(sanitized_urls(v)),
        None => None,
    }
}

/// Trims an optional text.
pub fn trim_opt(o: Option<String>) -> (r: Option<String>)
    ensures
        opt_text(r) == opt_trimmed(opt_text(o)),
{
    match o {
        Some(s) => Some(trim(s.as_str())),
        None => None,
    }
}

/// Sanitizes an optional URL.
pub fn sanitize_opt_url(o: Option<String>) -> (r: Option<String>)
    ensures
        opt_text(r) == opt_sanitized_url(opt_text(o)),
{
    match o {
        Some(s) => Some(sanitize_url(s.as_str())),
        None => None,
    }
}

/// Sanitizes every URL of a list, keeping the order.
pub fn sanitize_urls(v: Vec<String>) -> (r: Vec<String>)
    ensures
        texts(r) == sanitized_urls(texts(v)),
{
    let mut r: Vec<String> = Vec::new();
    let n: usize = v.len();
    let mut i: usize = 0;
    while i < n
        invariant
            n == v@.len(),
            i <= n,
            r@.len() == i,
            forall|k: int| 0 <= k < i ==> (#[trigger] r@[k])@ == sanitized_url(v@[k]@),
        decreases n - i,
    {
        r.push(sanitize_url(v[i].as_str()));
        i = i + 1;
    }
    assert(texts(r) =~= sanitized_urls(texts(v)));
    r
}

/// Sanitizes an optional list of URLs.
pub fn sanitize_opt_urls(o: Option<Vec<String>>) -> (r: Option<Vec<String>>)
    ensures
        opt_texts(r) == opt_sanitized_urls(opt_texts(o)),
{
    match o {
        Some(v) => Some(sanitize_urls(v)),
        None => None,
    }
}

/// A message of text around a decimal number: `before n after`.
pub fn numbered_message(before: &str, n: u64, after: &str) -> (m: ErrorMessage)
    ensures
        m@ == text(before@ + decimal(n as nat) + after@),
{
    let mut s = String::from_str(before);
    push_decimal(&mut s, n);
    s.append(after);
    ErrorMessage::from_text(s)
}

/// A message of text followed by a decimal number: `before n`.
pub fn numbered_text(before: &str, n: u64) -> (m: ErrorMessage)
    ensures
        m@ == text(before@ + decimal(n as nat)),
{
    let mut s = String::from_str(before);
    push_decimal(&mut s, n);
    ErrorMessage::from_text(s)
}

} // verus!
