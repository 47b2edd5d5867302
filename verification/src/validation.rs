//! Validation of coordinates, headings, timestamps, Pubky URIs and
//! OpenStreetMap URLs.
use vstd::prelude::*;

use crate::common::timestamp;
use crate::float::{
    float_in_range, in_range, MINUS_NINETY_BITS, MINUS_ONE_EIGHTY_BITS, NINETY_BITS,
    ONE_EIGHTY_BITS, THREE_SIXTY_BITS, ZERO_BITS,
};
use crate::message::{failure, text, ErrorMessage, Piece};
use crate::text::{
    chars_of, contains_seq, contains_str, push_signed_decimal, signed_decimal, starts_with,
    starts_with_str, str_equal,
};
use crate::url::{parse_outcome, parse_url, url_parse, ParsedUrl, UrlParts};

verus! {

/// Microseconds in one day: how far ahead of the clock a timestamp may be.
pub const ONE_DAY_MICROS: i64 = 86400000000;

/// The first coordinate out of range: latitude within -90..90, then
/// longitude within -180..180.
pub open spec fn coordinates_error(lat: u64, lon: u64) -> Option<Seq<Piece>> {
    if !float_in_range(lat, MINUS_NINETY_BITS, NINETY_BITS) {
        Some(
            seq![
                Piece::Text("Validation Error: Latitude "@),
                Piece::Float(lat),
                Piece::Text(" out of range (-90 to 90)"@),
            ],
        )
    } else if !float_in_range(lon, MINUS_ONE_EIGHTY_BITS, ONE_EIGHTY_BITS) {
        Some(
            seq![
                Piece::Text("Validation Error: Longitude "@),
                Piece::Float(lon),
                Piece::Text(" out of range (-180 to 180)"@),
            ],
        )
    } else {
        None
    }
}

/// A compass heading must lie within 0..360.
pub open spec fn heading_error(heading: u64) -> Option<Seq<Piece>> {
    if !float_in_range(heading, ZERO_BITS, THREE_SIXTY_BITS) {
        Some(
            seq![
                Piece::Text("Validation Error: Heading "@),
                Piece::Float(heading),
                Piece::Text(" out of range (0 to 360)"@),
            ],
        )
    } else {
        None
    }
}

/// A message `before x after` around one number.
pub fn number_message(before: &str, x: u64, after: &str) -> (m: ErrorMessage)
    ensures
        m@ == seq![Piece::Text(before@), Piece::Float(x), Piece::Text(after@)],
{
    let mut m = ErrorMessage::from_str(before);
    m.push_float(x);
    m.push_text(String::from_str(after));
    assert(m@ =~= seq![Piece::Text(before@), Piece::Float(x), Piece::Text(after@)]);
    m
}

/// A message of the text `a` followed by the text `b`.
pub fn joined_message(a: &str, b: &str) -> (m: ErrorMessage)
    ensures
        m@ == text(a@ + b@),
{
    let mut s = String::from_str(a);
    s.append(b);
    ErrorMessage::from_text(s)
}

/// Validates geographic coordinates (binary64 bit patterns).
pub fn validate_coordinates(lat: u64, lon: u64) -> (r: Result<(), ErrorMessage>)
    ensures
        failure(r) == coordinates_error(lat, lon),
{
    if !in_range(lat, MINUS_NINETY_BITS, NINETY_BITS) {
        return Err(number_message("Validation Error: Latitude ", lat, " out of range (-90 to 90)"));
    }
    if !in_range(lon, MINUS_ONE_EIGHTY_BITS, ONE_EIGHTY_BITS) {
        return Err(
            number_message("Validation Error: Longitude ", lon, " out of range (-180 to 180)"),
        );
    }
    Ok(())
}

/// Validates a compass heading (a binary64 bit pattern) within 0..360.
pub fn validate_heading(heading: u64) -> (r: Result<(), ErrorMessage>)
    ensures
        failure(r) == heading_error(heading),
{
    if !in_range(heading, ZERO_BITS, THREE_SIXTY_BITS) {
        return Err(number_message("Validation Error: Heading ", heading, " out of range (0 to 360)"));
    }
    Ok(())
}

/// A Pubky URI parses as a URL whose scheme is `pubky`.
pub open spec fn pubky_uri_error(uri: Seq<char>) -> Option<Seq<Piece>> {
    pubky_uri_parts_error(uri, url_parse(uri))
}

/// The rules of a Pubky URI `uri`, given the outcome of parsing it.
pub open spec fn pubky_uri_parts_error(uri: Seq<char>, parsed: Result<UrlParts, Seq<char>>) -> Option<
    Seq<Piece>,
> {
    match parsed {
        Err(_) => Some(text("Validation Error: Invalid URI format: "@ + uri)),
        Ok(u) => if u.scheme != "pubky"@ {
            Some(text("Validation Error: URI must use pubky:// protocol: "@ + uri))
        } else {
            None
        },
    }
}

/// Validates a `pubky://` URI.
pub fn validate_pubky_uri(uri: &str) -> (r: Result<(), ErrorMessage>)
    ensures
        failure(r) == pubky_uri_error(uri@),
{
    let parsed = parse_url(uri);
    check_pubky_uri_parts(uri, &parsed)
}

/// Checks the outcome of parsing `uri` against the rules of Pubky URIs.
pub fn check_pubky_uri_parts(uri: &str, parsed: &Result<ParsedUrl, String>) -> (r: Result<
    (),
    ErrorMessage,
>)
    ensures
        failure(r) == pubky_uri_parts_error(uri@, parse_outcome(*parsed)),
{
    match parsed {
        Err(_) => Err(joined_message("Validation Error: Invalid URI format: ", uri)),
        Ok(u) => {
            if !str_equal(u.scheme.as_str(), "pubky") {
                Err(joined_message("Validation Error: URI must use pubky:// protocol: ", uri))
            } else {
                Ok(())
            }
        },
    }
}

/// A sequence URI is a Pubky URI whose path holds `/pub/mapky.app/sequences/`.
pub open spec fn sequence_uri_error(uri: Seq<char>) -> Option<Seq<Piece>> {
    sequence_uri_parts_error(uri, url_parse(uri))
}

/// The rules of a sequence URI `uri`, given the outcome of parsing it.
pub open spec fn sequence_uri_parts_error(uri: Seq<char>, parsed: Result<UrlParts, Seq<char>>) -> Option<
    Seq<Piece>,
> {
    match pubky_uri_parts_error(uri, parsed) {
        Some(e) => Some(e),
        None => match parsed {
            Ok(u) => if !contains_seq(u.path, "/pub/mapky.app/sequences/"@) {
                Some(
                    text(
                        "Validation Error: sequence_uri must reference a /pub/mapky.app/sequences/ resource: "@
                            + uri,
                    ),
                )
            } else {
                None
            },
            Err(_) => None,
        },
    }
}

/// Validates that a `pubky://` URI points at a `/pub/mapky.app/sequences/{id}`
/// resource.
pub fn validate_sequence_uri(uri: &str) -> (r: Result<(), ErrorMessage>)
    ensures
        failure(r) == sequence_uri_error(uri@),
{
    let parsed = parse_url(uri);
    check_sequence_uri_parts(uri, &parsed)
}

/// Checks the outcome of parsing `uri` against the rules of sequence URIs.
pub fn check_sequence_uri_parts(uri: &str, parsed: &Result<ParsedUrl, String>) -> (r: Result<
    (),
    ErrorMessage,
>)
    ensures
        failure(r) == sequence_uri_parts_error(uri@, parse_outcome(*parsed)),
{
    check_pubky_uri_parts(uri, parsed)?;
    match parsed {
        Ok(u) => {
            if !contains_str(u.path.as_str(), "/pub/mapky.app/sequences/") {
                return Err(
                    joined_message(
                        "Validation Error: sequence_uri must reference a /pub/mapky.app/sequences/ resource: ",
                        uri,
                    ),
                );
            }
            Ok(())
        },
        Err(_) => Ok(()),
    }
}

/// A timestamp in microseconds must be positive and at most one day ahead
/// of `now`.
pub open spec fn timestamp_error(ts: i64, field: Seq<char>, now: i64) -> Option<Seq<Piece>> {
    if ts <= 0 {
        Some(
            text(
                "Validation Error: "@ + field
                    + " must be a positive UNIX timestamp in microseconds, got "@ + signed_decimal(
                    ts as int,
                ),
            ),
        )
    } else if ts > now + ONE_DAY_MICROS {
        Some(
            text(
                "Validation Error: "@ + field + " "@ + signed_decimal(ts as int)
                    + " is more than 1 day in the future"@,
            ),
        )
    } else {
        None
    }
}

/// Validates the timestamp `ts_us` (of the field named `field`) against the
/// clock reading `now_us`.
pub fn check_timestamp_microseconds(ts_us: i64, field: &str, now_us: i64) -> (r: Result<
    (),
    ErrorMessage,
>)
    ensures
        failure(r) == timestamp_error(ts_us, field@, now_us),
{
    if ts_us <= 0 {
        let mut s = String::from_str("Validation Error: ");
        s.append(field);
        s.append(" must be a positive UNIX timestamp in microseconds, got ");
        push_signed_decimal(&mut s, ts_us);
        return Err(ErrorMessage::from_text(s));
    }
    if (ts_us as i128) > (now_us as i128) + (ONE_DAY_MICROS as i128) {
        let mut s = String::from_str("Validation Error: ");
        s.append(field);
        s.append(" ");
        push_signed_decimal(&mut s, ts_us);
        s.append(" is more than 1 day in the future");
        return Err(ErrorMessage::from_text(s));
    }
    Ok(())
}

/// Validates a microsecond-precision UNIX timestamp against the clock: it
/// must be positive and not more than one day in the future.
pub fn validate_timestamp_microseconds(ts_us: i64, field: &str) -> (r: Result<(), ErrorMessage>)
    ensures
        exists|now: i64| failure(r) == timestamp_error(ts_us, field@, now),
        ts_us <= 0 ==> failure(r) == timestamp_error(ts_us, field@, 0),
{
    // The clock is read only for a positive timestamp.
    let now_us = if ts_us > 0 {
        timestamp()
    } else {
        0
    };
    check_timestamp_microseconds(ts_us, field, now_us)
}

/// The host of canonical OpenStreetMap URLs.
pub open spec fn osm_host() -> Seq<char> {
    "www.openstreetmap.org"@
}

/// `s` holds no `/`.
pub open spec fn has_no_slash(s: Seq<char>) -> bool {
    forall|k: int| 0 <= k < s.len() ==> s[k] != '/'
}

/// `s` without its leading `/` characters.
pub open spec fn trim_leading_slashes(s: Seq<char>) -> Seq<char>
    decreases s.len(),
{
    if s.len() > 0 && s[0] == '/' {
        trim_leading_slashes(s.drop_first())
    } else {
        s
    }
}

/// Position `i` holds the only `/` of `t`.
pub open spec fn is_sole_slash(t: Seq<char>, i: int) -> bool {
    &&& 0 <= i < t.len()
    &&& t[i] == '/'
    &&& has_no_slash(t.subrange(0, i))
    &&& has_no_slash(t.subrange(i + 1, t.len() as int))
}

/// The two `/`-separated segments of `t`, when `t` splits into exactly two.
pub open spec fn two_segments(t: Seq<char>) -> Option<(Seq<char>, Seq<char>)> {
    if exists|i: int| is_sole_slash(t, i) {
        let i = choose|i: int| is_sole_slash(t, i);
        Some((t.subrange(0, i), t.subrange(i + 1, t.len() as int)))
    } else {
        None
    }
}

/// The OSM element types.
pub open spec fn is_osm_element_type(s: Seq<char>) -> bool {
    s == "node"@ || s == "way"@ || s == "relation"@
}

/// An ASCII digit.
pub open spec fn is_ascii_digit(c: char) -> bool {
    '0' <= c && c <= '9'
}

/// The value of a sequence of ASCII digits.
pub open spec fn digits_value(d: Seq<char>) -> nat
    decreases d.len(),
{
    if d.len() == 0 {
        0
    } else {
        digits_value(d.drop_last()) * 10 + (d.last() as nat - '0' as nat) as nat
    }
}

/// Every character of `d` is an ASCII digit.
pub open spec fn all_digits(d: Seq<char>) -> bool {
    forall|k: int| 0 <= k < d.len() ==> is_ascii_digit(#[trigger] d[k])
}

/// `str::parse::<i64>`: an optional `+` or `-`, then one or more ASCII
/// digits whose signed value fits in an `i64`.
pub open spec fn parse_i64(s: Seq<char>) -> Option<i64> {
    let negative = s.len() > 0 && s[0] == '-';
    let d = if s.len() > 0 && (s[0] == '-' || s[0] == '+') {
        s.drop_first()
    } else {
        s
    };
    let v: int = if negative {
        -(digits_value(d) as int)
    } else {
        digits_value(d) as int
    };
    if d.len() == 0 || !all_digits(d) {
        None
    } else if v < i64::MIN || v > i64::MAX {
        None
    } else {
        Some(v as i64)
    }
}

/// The first rule an OSM URL breaks: it parses, uses `https` and the host
/// `www.openstreetmap.org`, its path is `/{type}/{id}` with a known element
/// type and an id that is a positive integer.
pub open spec fn osm_url_error(url: Seq<char>) -> Option<Seq<Piece>> {
    osm_url_parts_error(url_parse(url))
}

/// The rules of an OSM URL, given the outcome of parsing it.
pub open spec fn osm_url_parts_error(parsed: Result<UrlParts, Seq<char>>) -> Option<Seq<Piece>> {
    match parsed {
        Err(e) => Some(text("Validation Error: Invalid OSM URL: "@ + e)),
        Ok(u) => if u.scheme != "https"@ || u.host != Some(osm_host()) {
            Some(text("Validation Error: OSM URL must be https://www.openstreetmap.org/..."@))
        } else {
            match two_segments(trim_leading_slashes(u.path)) {
                None => Some(text("Validation Error: OSM URL path must be /{type}/{id}"@)),
                Some((kind, id)) => if !is_osm_element_type(kind) {
                    Some(text("Validation Error: Invalid OSM element type: "@ + kind))
                } else {
                    match parse_i64(id) {
                        None => Some(text("Validation Error: OSM ID must be a positive integer"@)),
                        Some(n) => if n <= 0 {
                            Some(
                                text(
                                    "Validation Error: OSM ID must be positive, got "@
                                        + signed_decimal(n as int),
                                ),
                            )
                        } else {
                            None
                        },
                    }
                },
            }
        },
    }
}

proof fn lemma_digits_value_prefix_grows(d: Seq<char>, k: int)
    requires
        0 <= k <= d.len(),
        all_digits(d),
    ensures
        digits_value(d.subrange(0, k)) <= digits_value(d),
    decreases d.len() - k,
{
    if k < d.len() {
        lemma_digits_value_prefix_grows(d, k + 1);
        let p = d.subrange(0, k + 1);
        assert(p.drop_last() =~= d.subrange(0, k));
        assert(is_ascii_digit(d[k]));
    } else {
        assert(d.subrange(0, k) =~= d);
    }
}

/// Parses ASCII digits `v[start..]` as a magnitude; `None` when one is not
/// a digit, or when the value exceeds `limit`.
fn parse_magnitude(v: &Vec<char>, start: usize, limit: u64) -> (r: Option<u64>)
    requires
        start <= v.len(),
        limit >= 9,
    ensures
        ({
            let d = v@.subrange(start as int, v.len() as int);
            match r {
                Some(m) => all_digits(d) && m == digits_value(d) && m <= limit,
                None => !all_digits(d) || digits_value(d) > limit,
            }
        }),
{
    let ghost d = v@.subrange(start as int, v.len() as int);
    let mut acc: u64 = 0;
    let mut i: usize = start;
    assert(d.subrange(0, 0) =~= Seq::<char>::empty());
    while i < v.len()
        invariant
            start <= i <= v.len(),
            d == v@.subrange(start as int, v.len() as int),
            all_digits(d.subrange(0, i - start)),
            acc == digits_value(d.subrange(0, i - start)),
            acc <= limit,
            limit >= 9,
        decreases v.len() - i,
    {
        let c = v[i];
        if !('0' <= c && c <= '9') {
            assert(d[i - start] == c);
            return None;
        }
        let digit: u64 = ((c as u32) - ('0' as u32)) as u64;
        let ghost next = d.subrange(0, i + 1 - start);
        assert(next.drop_last() =~= d.subrange(0, i - start));
        assert(next.last() == c);
        assert(all_digits(next)) by {
            assert forall|k: int| 0 <= k < next.len() implies is_ascii_digit(#[trigger] next[k]) by {
                if k < next.len() - 1 {
                    assert(next[k] == d.subrange(0, i - start)[k]);
                }
            }
        }
        if acc > (limit - digit) / 10 {
            proof {
                assert(digits_value(next) > limit) by (nonlinear_arith)
                    requires
                        digits_value(next) == acc * 10 + digit,
                        acc > (limit - digit) / 10,
                        digit <= 9,
                        limit >= 9,
                ;
                // The value of the whole run is at least that of its prefix,
                // unless a later character is not a digit.
                if all_digits(d) {
                    lemma_digits_value_prefix_grows(d, i + 1 - start);
                }
            }
            return None;
        }
        assert(acc * 10 + digit <= limit) by (nonlinear_arith)
            requires
                acc <= (limit - digit) / 10,
                digit <= 9,
                limit >= 9,
        ;
        acc = acc * 10 + digit;
        i = i + 1;
    }
    assert(d.subrange(0, i - start) =~= d);
    Some(acc)
}

/// `s.parse::<i64>().ok()` on the characters of `v`.
pub fn parse_i64_chars(v: &Vec<char>) -> (r: Option<i64>)
    ensures
        r == parse_i64(v@),
{
    let n: usize = v.len();
    let negative: bool = n > 0 && v[0] == '-';
    let start: usize = if n > 0 && (v[0] == '-' || v[0] == '+') {
        1
    } else {
        0
    };
    let ghost d = v@.subrange(start as int, n as int);
    assert(start == 1 ==> d =~= v@.drop_first());
    assert(start == 0 ==> d =~= v@);
    if start == n {
        return None;
    }
    let limit: u64 = if negative {
        9223372036854775808u64
    } else {
        9223372036854775807u64
    };
    match parse_magnitude(v, start, limit) {
        None => None,
        Some(m) => {
            if negative {
                if m == 9223372036854775808u64 {
                    Some(i64::MIN)
                } else {
                    Some(-(m as i64))
                }
            } else {
                Some(m as i64)
            }
        },
    }
}

/// Finds the only `/` of `v`, if there is exactly one.
fn sole_slash(v: &Vec<char>) -> (r: Option<usize>)
    ensures
        match r {
            Some(i) => is_sole_slash(v@, i as int),
            None => !exists|i: int| is_sole_slash(v@, i),
        },
{
    let n: usize = v.len();
    let mut first: Option<usize> = None;
    let mut i: usize = 0;
    while i < n
        invariant
            n == v@.len(),
            i <= n,
            match first {
                None => has_no_slash(v@.subrange(0, i as int)),
                Some(f) => f < i && v@[f as int] == '/' && has_no_slash(v@.subrange(0, f as int))
                    && has_no_slash(v@.subrange(f + 1, i as int)),
            },
        decreases n - i,
    {
        if v[i] == '/' {
            match first {
                None => {
                    first = Some(i);
                },
                Some(f) => {
                    proof {
                        assert forall|j: int| is_sole_slash(v@, j) implies false by {
                            if j < i {
                                if j != f {
                                    if j < f {
                                        assert(v@.subrange(0, f as int)[j] == '/');
                                    } else {
                                        assert(v@.subrange(f + 1, i as int)[j - f - 1] == '/');
                                    }
                                } else {
                                    assert(v@.subrange(j + 1, n as int)[i - j - 1] == '/');
                                }
                            } else {
                                assert(v@.subrange(0, j)[f as int] == '/');
                            }
                        }
                    }
                    return None;
                },
            }
        }
        i = i + 1;
    }
    match first {
        None => {
            assert forall|j: int| is_sole_slash(v@, j) implies false by {
                assert(v@.subrange(0, n as int)[j] == '/');
            }
            None
        },
        Some(f) => {
            assert(v@.subrange(0, n as int) =~= v@);
            Some(f)
        },
    }
}

/// Copies `v[from..to]` into a new vector.
fn slice_chars(v: &Vec<char>, from: usize, to: usize) -> (r: Vec<char>)
    requires
        from <= to <= v.len(),
    ensures
        r@ == v@.subrange(from as int, to as int),
{
    let mut r: Vec<char> = Vec::new();
    let mut i: usize = from;
    while i < to
        invariant
            from <= i <= to <= v.len(),
            r@ == v@.subrange(from as int, i as int),
        decreases to - i,
    {
        r.push(v[i]);
        i = i + 1;
        assert(r@ =~= v@.subrange(from as int, i as int));
    }
    r
}

/// The characters `s[from..to]` as a new `String`.
fn string_of_range(s: &str, from: usize, to: usize) -> (r: String)
    requires
        from <= to <= s@.len(),
    ensures
        r@ == s@.subrange(from as int, to as int),
{
    String::from_str(s.substring_char(from, to))
}

/// The number of leading `/` characters of `v`.
fn leading_slashes(v: &Vec<char>) -> (k: usize)
    ensures
        k <= v.len(),
        trim_leading_slashes(v@) == v@.subrange(k as int, v.len() as int),
{
    let n: usize = v.len();
    let mut k: usize = 0;
    assert(v@.subrange(0, n as int) =~= v@);
    while k < n && v[k] == '/'
        invariant
            k <= n,
            n == v@.len(),
            trim_leading_slashes(v@) == trim_leading_slashes(v@.subrange(k as int, n as int)),
        decreases n - k,
    {
        assert(v@.subrange(k as int, n as int).drop_first() =~= v@.subrange(k + 1, n as int));
        k = k + 1;
    }
    k
}

/// Validates an OSM URL: `https://www.openstreetmap.org/{node|way|relation}/{positive_id}`.
pub fn validate_osm_url(url: &str) -> (r: Result<(), ErrorMessage>)
    ensures
        failure(r) == osm_url_error(url@),
{
    let parsed = parse_url(url);
    check_osm_url_parts(&parsed)
}

/// Checks the outcome of parsing an OSM URL against the rules of OSM URLs.
pub fn check_osm_url_parts(parsed: &Result<ParsedUrl, String>) -> (r: Result<(), ErrorMessage>)
    ensures
        failure(r) == osm_url_parts_error(parse_outcome(*parsed)),
{
    let u = match parsed {
        Err(e) => {
            let mut s = String::from_str("Validation Error: Invalid OSM URL: ");
            s.append(e.as_str());
            return Err(ErrorMessage::from_text(s));
        },
        Ok(u) => u,
    };
    let host_ok: bool = match &u.host {
        Some(h) => str_equal(h.as_str(), "www.openstreetmap.org"),
        None => false,
    };
    if !str_equal(u.scheme.as_str(), "https") || !host_ok {
        return Err(
            ErrorMessage::from_str(
                "Validation Error: OSM URL must be https://www.openstreetmap.org/...",
            ),
        );
    }
    let path = chars_of(u.path.as_str());
    let k = leading_slashes(&path);
    let rest = slice_chars(&path, k, path.len());
    let slash = match sole_slash(&rest) {
        None => {
            return Err(
                ErrorMessage::from_str("Validation Error: OSM URL path must be /{type}/{id}"),
            );
        },
        Some(i) => i,
    };
    proof {
        assert forall|j: int| is_sole_slash(rest@, j) implies j == slash by {
            if j < slash {
                assert(rest@.subrange(j + 1, rest@.len() as int)[slash - j - 1] == '/');
            } else if j > slash {
                assert(rest@.subrange(0, j)[slash as int] == '/');
            }
        }
    }
    let stripped = u.path.as_str().substring_char(k, path.len());
    assert(stripped@ == rest@);
    let kind = string_of_range(stripped, 0, slash);
    let is_type: bool = str_equal(kind.as_str(), "node") || str_equal(kind.as_str(), "way")
        || str_equal(kind.as_str(), "relation");
    if !is_type {
        let mut s = String::from_str("Validation Error: Invalid OSM element type: ");
        s.append(kind.as_str());
        return Err(ErrorMessage::from_text(s));
    }
    let id_chars = slice_chars(&rest, slash + 1, rest.len());
    match parse_i64_chars(&id_chars) {
        None => Err(
            ErrorMessage::from_str("Validation Error: OSM ID must be a positive integer"),
        ),
        Some(id) => {
            if id <= 0 {
                let mut s = String::from_str("Validation Error: OSM ID must be positive, got ");
                push_signed_decimal(&mut s, id);
                Err(ErrorMessage::from_text(s))
            } else {
                Ok(())
            }
        },
    }
}

/// An OSM Way URL: a valid OSM URL whose path starts with `/way/`.
pub open spec fn osm_way_url_error(url: Seq<char>) -> Option<Seq<Piece>> {
    osm_way_url_parts_error(url_parse(url))
}

/// The rules of an OSM Way URL, given the outcome of parsing it.
pub open spec fn osm_way_url_parts_error(parsed: Result<UrlParts, Seq<char>>) -> Option<Seq<Piece>> {
    match osm_url_parts_error(parsed) {
        Some(e) => Some(e),
        None => match parsed {
            Ok(u) => if !starts_with(u.path, "/way/"@) {
                Some(text("Validation Error: Expected an OSM Way URL"@))
            } else {
                None
            },
            Err(_) => None,
        },
    }
}

/// Validates that an OSM URL refers to a Way element.
pub fn validate_osm_way_url(url: &str) -> (r: Result<(), ErrorMessage>)
    ensures
        failure(r) == osm_way_url_error(url@),
{
    let parsed = parse_url(url);
    check_osm_way_url_parts(&parsed)
}

/// Checks the outcome of parsing an OSM URL against the rules of OSM Way
/// URLs.
pub fn check_osm_way_url_parts(parsed: &Result<ParsedUrl, String>) -> (r: Result<
    (),
    ErrorMessage,
>)
    ensures
        failure(r) == osm_way_url_parts_error(parse_outcome(*parsed)),
{
    check_osm_url_parts(parsed)?;
    match parsed {
        Ok(u) => {
            if !starts_with_str(u.path.as_str(), "/way/") {
                return Err(ErrorMessage::from_str("Validation Error: Expected an OSM Way URL"));
            }
            Ok(())
        },
        Err(_) => Ok(()),
    }
}

} // verus!
