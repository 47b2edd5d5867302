//! The clock, URL sanitization and geographic bounding boxes.
use vstd::prelude::*;
use vstd::string::StrSliceExecFns;

use crate::float::{
    float_greater, float_in_range, greater, in_range, MINUS_NINETY_BITS, MINUS_ONE_EIGHTY_BITS,
    NINETY_BITS, ONE_EIGHTY_BITS,
};
use crate::message::{failure, ErrorMessage, Piece};
use crate::text::{
    chars_of, decimal, is_white_space, is_white_space_char, lowercase, push_decimal, to_lowercase,
    trim, trimmed,
};
use crate::url::{parse_outcome, parse_url, url_parse, ParsedUrl, UrlParts};

verus! {

/// `SystemTime::elapsed` of `UNIX_EPOCH`: the time since the epoch, by the
/// system clock. Nothing is claimed of it. The error of a clock set before
/// the epoch is unwrapped, so the call panics then.
#[verifier::external_body]
fn time_since_epoch() -> std::time::Duration {
    std::time::UNIX_EPOCH.elapsed().unwrap()
}

/// `Duration::as_micros`. The duration is opaque here, so nothing is
/// claimed of the count.
#[verifier::external_body]
fn whole_micros(d: &std::time::Duration) -> u128 {
    d.as_micros()
}

/// Returns the current time in microseconds since the UNIX epoch, cut to
/// 64 bits as `as i64` does.
pub fn timestamp() -> i64 {
    let d = time_since_epoch();
    let micros = whole_micros(&d);
    #[verifier::truncate]
    (micros as i64)
}

/// What `sanitize_url` makes of `input`: the trimmed text, normalized by the
/// URL parser when it parses.
pub open spec fn sanitized_url(input: Seq<char>) -> Seq<char> {
    normalized_or_kept(trimmed(input), url_parse(trimmed(input)))
}

/// The normalized serialization of a text that parsed as a URL, else the
/// text itself.
pub open spec fn normalized_or_kept(t: Seq<char>, parsed: Result<UrlParts, Seq<char>>) -> Seq<char> {
    match parsed {
        Ok(u) => u.serialization,
        Err(_) => t,
    }
}

/// Trims white space and normalizes a URL if it parses; text that does not
/// parse is kept (trimmed) so that validation can reject it.
pub fn sanitize_url(input: &str) -> (r: String)
    ensures
        r@ == sanitized_url(input@),
{
    let t = trim(input);
    let parsed = parse_url(t.as_str());
    normalize_or_keep(t, parsed)
}

/// The normalized serialization when `parsed` holds a URL, else `t`.
pub fn normalize_or_keep(t: String, parsed: Result<ParsedUrl, String>) -> (r: String)
    ensures
        r@ == normalized_or_kept(t@, parse_outcome(parsed)),
{
    match parsed {
        Ok(u) => u.serialization,
        Err(_) => t,
    }
}

/// What `sanitize_tag_label` makes of a label: trimmed, then lowercased.
pub open spec fn sanitized_tag_label(tag: Seq<char>) -> Seq<char> {
    lowercase(trimmed(tag))
}

/// Trims white space and lowercases a tag label.
pub fn sanitize_tag_label(tag: &str) -> (r: String)
    ensures
        r@ == sanitized_tag_label(tag@),
{
    let t = trim(tag);
    to_lowercase(t.as_str())
}

/// The first character of `tag` that `listed` holds.
pub open spec fn first_listed(tag: Seq<char>, listed: Seq<char>) -> Option<char>
    decreases tag.len(),
{
    if tag.len() == 0 {
        None
    } else if listed.contains(tag[0]) {
        Some(tag[0])
    } else {
        first_listed(tag.drop_first(), listed)
    }
}

/// The first rule a tag label breaks: at most `max` characters, at least
/// `min`, no white space, none of the `invalid` characters.
pub open spec fn tag_label_error(tag: Seq<char>, max: nat, min: nat, invalid: Seq<char>) -> Option<
    Seq<char>,
> {
    if tag.len() > max {
        Some(
            "Validation Error: Tag '"@ + tag + "' exceeds maximum length of "@ + decimal(max)
                + " characters"@,
        )
    } else if tag.len() < min {
        Some(
            "Validation Error: Tag '"@ + tag + "' is shorter than minimum length of "@ + decimal(
                min,
            ) + " character"@,
        )
    } else if exists|i: int| 0 <= i < tag.len() && is_white_space(#[trigger] tag[i]) {
        Some("Validation Error: Tag '"@ + tag + "' contains whitespace characters"@)
    } else {
        match first_listed(tag, invalid) {
            Some(c) => Some(
                "Validation Error: Tag '"@ + tag + "' contains invalid character: "@ + seq![c],
            ),
            None => None,
        }
    }
}

/// The outcome of a check, as text.
pub open spec fn text_failure(r: Result<(), String>) -> Option<Seq<char>> {
    match r {
        Ok(()) => None,
        Err(e) => Some(e@),
    }
}

fn lists(invalid: &[char], c: char) -> (r: bool)
    ensures
        r == invalid@.contains(c),
{
    let n: usize = invalid.len();
    let mut j: usize = 0;
    while j < n
        invariant
            n == invalid@.len(),
            j <= n,
            forall|m: int| 0 <= m < j ==> invalid@[m] != c,
        decreases n - j,
    {
        if invalid[j] == c {
            return true;
        }
        j = j + 1;
    }
    false
}

/// Checks a tag label against its length bounds and characters.
pub fn validate_tag_label(tag: &str, max_length: usize, min_length: usize, invalid_chars: &[char]) -> (r:
    Result<(), String>)
    ensures
        text_failure(r) == tag_label_error(tag@, max_length as nat, min_length as nat, invalid_chars@),
{
    let v = chars_of(tag);
    let n: usize = v.len();
    if n > max_length {
        let mut e = String::from_str("Validation Error: Tag '");
        e.append(tag);
        e.append("' exceeds maximum length of ");
        push_decimal(&mut e, max_length as u64);
        e.append(" characters");
        return Err(e);
    }
    if n < min_length {
        let mut e = String::from_str("Validation Error: Tag '");
        e.append(tag);
        e.append("' is shorter than minimum length of ");
        push_decimal(&mut e, min_length as u64);
        e.append(" character");
        return Err(e);
    }
    let mut i: usize = 0;
    while i < n
        invariant
            v@ == tag@,
            n == v@.len(),
            min_length <= n <= max_length,
            i <= n,
            forall|m: int| 0 <= m < i ==> !is_white_space(#[trigger] v@[m]),
        decreases n - i,
    {
        if is_white_space_char(v[i]) {
            assert(is_white_space(tag@[i as int]));
            let mut e = String::from_str("Validation Error: Tag '");
            e.append(tag);
            e.append("' contains whitespace characters");
            return Err(e);
        }
        i = i + 1;
    }
    let mut i: usize = 0;
    assert(tag@.subrange(0, n as int) =~= tag@);
    while i < n
        invariant
            v@ == tag@,
            n == v@.len(),
            min_length <= n <= max_length,
            i <= n,
            forall|m: int| 0 <= m < n ==> !is_white_space(#[trigger] v@[m]),
            first_listed(tag@, invalid_chars@) == first_listed(
                tag@.subrange(i as int, n as int),
                invalid_chars@,
            ),
        decreases n - i,
    {
        proof {
            assert(tag@.subrange(i as int, n as int).drop_first() =~= tag@.subrange(
                i + 1,
                n as int,
            ));
        }
        if lists(invalid_chars, v[i]) {
            let mut e = String::from_str("Validation Error: Tag '");
            e.append(tag);
            e.append("' contains invalid character: ");
            let c = tag.substring_char(i, i + 1);
            assert(c@ =~= seq![tag@[i as int]]);
            e.append(c);
            return Err(e);
        }
        i = i + 1;
    }
    Ok(())
}

/// Geographic bounding box in WGS84. Each bound is a binary64 value carried
/// by its IEEE-754 bit pattern.
#[derive(Clone, Copy, Debug, PartialEq, Eq, Structural)]
pub struct BoundingBox {
    pub min_lat: u64,
    pub min_lon: u64,
    pub max_lat: u64,
    pub max_lon: u64,
}

/// The first rule a bounding box breaks: latitudes within -90..90, longitudes
/// within -180..180, then each minimum not above its maximum.
pub open spec fn bbox_error(b: BoundingBox) -> Option<Seq<Piece>> {
    if !float_in_range(b.min_lat, MINUS_NINETY_BITS, NINETY_BITS) || !float_in_range(
        b.max_lat,
        MINUS_NINETY_BITS,
        NINETY_BITS,
    ) {
        Some(
            seq![
                Piece::Text(
                    "Validation Error: BoundingBox latitude out of range (-90..90): min_lat="@,
                ),
                Piece::Float(b.min_lat),
                Piece::Text(", max_lat="@),
                Piece::Float(b.max_lat),
            ],
        )
    } else if !float_in_range(b.min_lon, MINUS_ONE_EIGHTY_BITS, ONE_EIGHTY_BITS) || !float_in_range(
        b.max_lon,
        MINUS_ONE_EIGHTY_BITS,
        ONE_EIGHTY_BITS,
    ) {
        Some(
            seq![
                Piece::Text(
                    "Validation Error: BoundingBox longitude out of range (-180..180): min_lon="@,
                ),
                Piece::Float(b.min_lon),
                Piece::Text(", max_lon="@),
                Piece::Float(b.max_lon),
            ],
        )
    } else if float_greater(b.min_lat, b.max_lat) {
        Some(
            seq![
                Piece::Text("Validation Error: BoundingBox min_lat "@),
                Piece::Float(b.min_lat),
                Piece::Text(" > max_lat "@),
                Piece::Float(b.max_lat),
            ],
        )
    } else if float_greater(b.min_lon, b.max_lon) {
        Some(
            seq![
                Piece::Text("Validation Error: BoundingBox min_lon "@),
                Piece::Float(b.min_lon),
                Piece::Text(" > max_lon "@),
                Piece::Float(b.max_lon),
            ],
        )
    } else {
        None
    }
}

/// A message of two numbers: `a x b y`.
fn two_number_message(a: &str, x: u64, b: &str, y: u64) -> (m: ErrorMessage)
    ensures
        m@ == seq![Piece::Text(a@), Piece::Float(x), Piece::Text(b@), Piece::Float(y)],
{
    let mut m = ErrorMessage::from_str(a);
    m.push_float(x);
    m.push_text(String::from_str(b));
    m.push_float(y);
    assert(m@ =~= seq![Piece::Text(a@), Piece::Float(x), Piece::Text(b@), Piece::Float(y)]);
    m
}

impl BoundingBox {
    /// A bounding box of the given bounds.
    pub fn new(min_lat: u64, min_lon: u64, max_lat: u64, max_lon: u64) -> (b: BoundingBox)
        ensures
            b == (BoundingBox { min_lat, min_lon, max_lat, max_lon }),
    {
        BoundingBox { min_lat, min_lon, max_lat, max_lon }
    }

    /// Checks the ranges and the order of the bounds.
    pub fn validate(&self) -> (r: Result<(), ErrorMessage>)
        ensures
            failure(r) == bbox_error(*self),
    {
        if !in_range(self.min_lat, MINUS_NINETY_BITS, NINETY_BITS) || !in_range(
            self.max_lat,
            MINUS_NINETY_BITS,
            NINETY_BITS,
        ) {
            return Err(
                two_number_message(
                    "Validation Error: BoundingBox latitude out of range (-90..90): min_lat=",
                    self.min_lat,
                    ", max_lat=",
                    self.max_lat,
                ),
            );
        }
        if !in_range(self.min_lon, MINUS_ONE_EIGHTY_BITS, ONE_EIGHTY_BITS) || !in_range(
            self.max_lon,
            MINUS_ONE_EIGHTY_BITS,
            ONE_EIGHTY_BITS,
        ) {
            return Err(
                two_number_message(
                    "Validation Error: BoundingBox longitude out of range (-180..180): min_lon=",
                    self.min_lon,
                    ", max_lon=",
                    self.max_lon,
                ),
            );
        }
        if greater(self.min_lat, self.max_lat) {
            return Err(
                two_number_message(
                    "Validation Error: BoundingBox min_lat ",
                    self.min_lat,
                    " > max_lat ",
                    self.max_lat,
                ),
            );
        }
        if greater(self.min_lon, self.max_lon) {
            return Err(
                two_number_message(
                    "Validation Error: BoundingBox min_lon ",
                    self.min_lon,
                    " > max_lon ",
                    self.max_lon,
                ),
            );
        }
        Ok(())
    }
}

} // verus!
