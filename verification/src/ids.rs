//! Timestamp identifiers, by `pubky_app_specs::traits::TimestampId`: the
//! current time in microseconds, as 8 big-endian bytes in Crockford Base32.
use vstd::prelude::*;

use pubky_app_specs::traits::{HashId, TimestampId};
use vstd::string::StringSliceAdditionalSpecFns;
use vstd::utf8::encode_utf8;

verus! {

/// The characters of the Crockford Base32 alphabet.
pub open spec fn is_crockford_char(c: char) -> bool {
    ('0' <= c && c <= '9') || ('A' <= c && c <= 'H') || c == 'J' || c == 'K' || c == 'M' || c
        == 'N' || ('P' <= c && c <= 'T') || ('V' <= c && c <= 'Z')
}

/// A well-formed timestamp identifier: 13 Crockford Base32 characters.
pub open spec fn is_timestamp_id_shape(id: Seq<char>) -> bool {
    id.len() == 13 && forall|i: int| 0 <= i < id.len() ==> is_crockford_char(#[trigger] id[i])
}

/// The message `TimestampId::validate_id` gives for an identifier whose
/// length in bytes is not 13.
pub open spec fn id_length_error() -> Seq<char> {
    "Validation Error: Invalid ID length: must be 13 characters"@
}

/// What `base32::decode(Alphabet::Crockford, ..)` makes of a text: the
/// decoded bytes, or `None` when the text is not Crockford Base32. It
/// depends on the text alone.
pub uninterp spec fn crockford_decode(id: Seq<char>) -> Option<Seq<u8>>;

/// The unsigned big-endian value of a sequence of bytes.
pub open spec fn be_value(b: Seq<u8>) -> nat
    decreases b.len(),
{
    if b.len() == 0 {
        0
    } else {
        be_value(b.drop_last()) * 256 + b.last() as nat
    }
}

/// `i64::from_be_bytes` of 8 bytes: the big-endian value read in two's
/// complement.
pub open spec fn be_i64(b: Seq<u8>) -> int {
    if be_value(b) >= 0x8000_0000_0000_0000 {
        be_value(b) - 0x1_0000_0000_0000_0000
    } else {
        be_value(b) as int
    }
}

/// 2024-10-01 00:00:00 UTC in microseconds: the earliest time an
/// identifier may encode.
pub open spec fn earliest_id_micros() -> int {
    1727740800000000
}

/// The message for a timestamp identifier that is too far in the future.
pub open spec fn id_future_error() -> Seq<char> {
    "Validation Error: Invalid ID, timestamp is too far in the future"@
}

/// Why `TimestampId::validate_id` rejects an identifier of `len` bytes that
/// decodes to `decoded`, whatever the clock reads: its length, its
/// encoding, the decoded length, a timestamp before 2024-10-01.
pub open spec fn id_rejection(len: nat, decoded: Option<Seq<u8>>) -> Option<Seq<char>> {
    if len != 13 {
        Some(id_length_error())
    } else {
        match decoded {
            None => Some("Validation Error: Invalid Crockford Base32 encoding"@),
            Some(b) => if b.len() != 8 {
                Some("Validation Error: Invalid ID length after decoding"@)
            } else if be_i64(b) < earliest_id_micros() {
                Some("Validation Error: Invalid ID, timestamp must be after October 1st, 2024"@)
            } else {
                None
            },
        }
    }
}

/// The identifier `id` passes every rule that does not depend on the clock.
pub open spec fn id_accepted(id: Seq<char>) -> bool {
    id_rejection(encode_utf8(id).len(), crockford_decode(id)) is None
}

/// `r` obeys the clock-free rules: a rejected identifier gives its message.
pub open spec fn respects_id_rules(len: nat, decoded: Option<Seq<u8>>, r: Result<(), String>) -> bool {
    id_rejection(len, decoded) matches Some(m) ==> (r matches Err(e) && e@ == m)
}

/// `r` is an outcome `TimestampId::validate_id` can give for an identifier
/// of `len` bytes that decodes to `decoded`: the rejection message when the
/// clock-free rules reject it, else success or, when the timestamp is more
/// than two hours ahead of the clock, the future message.
pub open spec fn id_check_outcome(len: nat, decoded: Option<Seq<u8>>, r: Result<(), String>) -> bool {
    match id_rejection(len, decoded) {
        Some(m) => r matches Err(e) && e@ == m,
        None => r is Ok || (r matches Err(e) && e@ == id_future_error()),
    }
}

/// `TimestampId::create_id`: encodes the current time. The provided method
/// does not read its receiver, so it is called on a default `PubkyAppPost`.
/// From the method and `base32::encode`: 8 bytes encode to 13 characters of
/// the Crockford alphabet. Which characters depends on the clock.
#[verifier::external_body]
pub fn create_timestamp_id() -> (id: String)
    ensures
        is_timestamp_id_shape(id@),
{
    pubky_app_specs::PubkyAppPost::default().create_id()
}

/// `TimestampId::validate_id`, called on a default `PubkyAppPost` (the
/// provided method does not read its receiver). Through
/// `validate_crockford_id` it rejects an identifier that is not 13 bytes
/// long, one that is not Crockford Base32 (`base32::decode`, named
/// `crockford_decode`), one that does not decode to 8 bytes, then one whose
/// big-endian timestamp is before 2024-10-01, and finally one more than two
/// hours ahead of the clock; each with its fixed message. Which of the last
/// two outcomes comes depends on the clock.
#[verifier::external_body]
pub fn check_timestamp_id(id: &str) -> (r: Result<(), String>)
    ensures
        id_check_outcome(id.spec_bytes().len(), crockford_decode(id@), r),
{
    pubky_app_specs::PubkyAppPost::default().validate_id(id)
}

/// The identifier `HashId::create_id` gives a `PubkyAppTag` with the given
/// `uri` and `label`: the first half of the Blake3 hash of `{uri}:{label}`,
/// in Crockford Base32. It depends on the two texts alone.
pub uninterp spec fn pubky_tag_id(uri: Seq<char>, label: Seq<char>) -> Seq<char>;

/// `HashId::create_id` of a `PubkyAppTag` with the given `uri` and `label`
/// (its `created_at` does not enter the identifier).
#[verifier::external_body]
pub fn tag_hash_id(uri: &str, label: &str) -> (id: String)
    ensures
        id@ == pubky_tag_id(uri@, label@),
{
    pubky_app_specs::PubkyAppTag {
        uri: uri.to_string(),
        label: label.to_string(),
        created_at: 0,
    }.create_id()
}

} // verus!
