//! Formal ratings of OpenStreetMap places.
//!
//! URI: `/pub/mapky.app/reviews/:review_id`
use vstd::prelude::*;

use crate::checks::{
    check_id, first_failure, id_error, is_id_verdict, numbered_message, numbered_text, opt_sanitized_urls,
    opt_text, opt_texts, opt_trimmed, sanitize_opt_urls, texts, trim_opt,
};
use crate::common::{sanitize_url, sanitized_url};
use crate::constants::{MAPKY_PATH, MAX_ATTACHMENTS, MAX_ATTACHMENT_URL_LENGTH, MAX_CONTENT_LENGTH, PUBLIC_PATH};
use crate::ids::{create_timestamp_id, is_timestamp_id_shape};
use crate::message::{failure, text, ErrorMessage, Piece};
use crate::text::{char_count, decimal, is_blank, is_blank_str, str_equal};
use crate::url::{parse_outcome, parse_url, url_parse, ParsedUrl, UrlParts};
use crate::validation::{osm_url_error, validate_osm_url};

verus! {

/// A rating of an OSM place, with optional text and attachments.
#[derive(Clone, Debug)]
pub struct MapkyAppReview {
    /// Canonical OSM URL of the place.
    pub place: String,
    /// Rating, 1 to 10.
    pub rating: u8,
    pub content: Option<String>,
    /// `pubky://` URIs of attached files.
    pub attachments: Option<Vec<String>>,
}

/// A review as the contracts see it.
pub struct ReviewView {
    pub place: Seq<char>,
    pub rating: u8,
    pub content: Option<Seq<char>>,
    pub attachments: Option<Seq<Seq<char>>>,
}

impl View for MapkyAppReview {
    type V = ReviewView;

    open spec fn view(&self) -> ReviewView {
        ReviewView {
            place: self.place@,
            rating: self.rating,
            content: opt_text(self.content),
            attachments: opt_texts(self.attachments),
        }
    }
}

/// What `sanitize` makes of a review: the place and attachments sanitized
/// as URLs, the content trimmed.
pub open spec fn sanitized_review(r: ReviewView) -> ReviewView {
    ReviewView {
        place: sanitized_url(r.place),
        rating: r.rating,
        content: opt_trimmed(r.content),
        attachments: opt_sanitized_urls(r.attachments),
    }
}

/// The failure of the attachment at position `i`: not blank, at most 300
/// characters, a URL with the `pubky` scheme.
pub open spec fn pubky_attachment_error(url: Seq<char>, i: int) -> Option<Seq<Piece>> {
    if is_blank(url) {
        Some(
            text(
                "Validation Error: Attachment URL at index "@ + decimal(i as nat)
                    + " cannot be empty"@,
            ),
        )
    } else if url.len() > MAX_ATTACHMENT_URL_LENGTH {
        Some(
            text(
                "Validation Error: Attachment URL at index "@ + decimal(i as nat)
                    + " exceeds maximum length (max: 300 characters)"@,
            ),
        )
    } else {
        attachment_scheme_error(i, url_parse(url))
    }
}

/// The failure of the attachment at position `i`, given the outcome of
/// parsing it: it parses, with the `pubky` scheme.
pub open spec fn attachment_scheme_error(i: int, parsed: Result<UrlParts, Seq<char>>) -> Option<
    Seq<Piece>,
> {
    match parsed {
        Err(_) => Some(
            text("Validation Error: Invalid attachment URL format at index "@ + decimal(i as nat)),
        ),
        Ok(u) => if u.scheme != "pubky"@ {
            Some(
                text(
                    "Validation Error: Attachment URL at index "@ + decimal(i as nat)
                        + " must use pubky:// protocol"@,
                ),
            )
        } else {
            None
        },
    }
}

/// The attachment checks of a list of URLs.
pub open spec fn pubky_attachment_checks(a: Seq<Seq<char>>) -> spec_fn(int) -> Option<Seq<Piece>> {
    |i: int| pubky_attachment_error(a[i], i)
}

/// The failure of an optional attachment list: at most 20 entries, then the
/// first entry that fails.
pub open spec fn attachments_error(attachments: Option<Seq<Seq<char>>>) -> Option<Seq<Piece>> {
    match attachments {
        None => None,
        Some(a) => if a.len() > MAX_ATTACHMENTS {
            Some(text("Validation Error: Too many attachments (max: 20)"@))
        } else {
            first_failure(pubky_attachment_checks(a), 0, a.len() as int)
        },
    }
}

/// The first rule a review breaks: the identifier (when checked), the place
/// is an OSM URL, the rating is 1 to 10, the content has at most 5000
/// characters, the attachments.
pub open spec fn review_error(r: ReviewView, id_check: Option<Result<(), String>>) -> Option<
    Seq<Piece>,
> {
    if id_error(id_check) is Some {
        id_error(id_check)
    } else if osm_url_error(r.place) is Some {
        osm_url_error(r.place)
    } else if !(1 <= r.rating && r.rating <= 10) {
        Some(
            text("Validation Error: Rating must be between 1 and 10, got "@ + decimal(r.rating as nat)),
        )
    } else if r.content matches Some(c) && c.len() > MAX_CONTENT_LENGTH {
        Some(text("Validation Error: Content exceeds maximum length of 5000 characters"@))
    } else {
        attachments_error(r.attachments)
    }
}

/// Checks one attachment URL at position `i`.
pub fn validate_pubky_attachment(url: &str, i: usize) -> (r: Result<(), ErrorMessage>)
    ensures
        failure(r) == pubky_attachment_error(url@, i as int),
{
    if is_blank_str(url) {
        return Err(
            numbered_message(
                "Validation Error: Attachment URL at index ",
                i as u64,
                " cannot be empty",
            ),
        );
    }
    if char_count(url) > MAX_ATTACHMENT_URL_LENGTH {
        return Err(
            numbered_message(
                "Validation Error: Attachment URL at index ",
                i as u64,
                " exceeds maximum length (max: 300 characters)",
            ),
        );
    }
    let parsed = parse_url(url);
    check_attachment_scheme(i, &parsed)
}

/// Checks the outcome of parsing the attachment at position `i`.
pub fn check_attachment_scheme(i: usize, parsed: &Result<ParsedUrl, String>) -> (r: Result<
    (),
    ErrorMessage,
>)
    ensures
        failure(r) == attachment_scheme_error(i as int, parse_outcome(*parsed)),
{
    match parsed {
        Err(_) => Err(
            numbered_text("Validation Error: Invalid attachment URL format at index ", i as u64),
        ),
        Ok(u) => {
            if !str_equal(u.scheme.as_str(), "pubky") {
                Err(
                    numbered_message(
                        "Validation Error: Attachment URL at index ",
                        i as u64,
                        " must use pubky:// protocol",
                    ),
                )
            } else {
                Ok(())
            }
        },
    }
}

/// Checks a list of attachment URLs, up to the first failure.
pub fn validate_pubky_attachments(a: &Vec<String>) -> (r: Result<(), ErrorMessage>)
    ensures
        failure(r) == attachments_error(Some(texts(*a))),
{
    let ghost v = texts(*a);
    let ghost f = pubky_attachment_checks(v);
    if a.len() > MAX_ATTACHMENTS {
        return Err(ErrorMessage::from_str("Validation Error: Too many attachments (max: 20)"));
    }
    let n: usize = a.len();
    let mut i: usize = 0;
    assert(v.len() == n);
    while i < n
        invariant
            n == a@.len(),
            n <= MAX_ATTACHMENTS,
            v.len() == n,
            v == texts(*a),
            f == pubky_attachment_checks(v),
            i <= n,
            first_failure(f, 0, n as int) == first_failure(f, i as int, n as int),
        decreases n - i,
    {
        let r = validate_pubky_attachment(a[i].as_str(), i);
        assert(v[i as int] == a@[i as int]@);
        assert(f(i as int) == pubky_attachment_error(v[i as int], i as int));
        if r.is_err() {
            assert(first_failure(f, i as int, n as int) == f(i as int));
            return r;
        }
        i = i + 1;
    }
    Ok(())
}

impl MapkyAppReview {
    /// A review of the given fields, sanitized.
    pub fn new(
        place: String,
        rating: u8,
        content: Option<String>,
        attachments: Option<Vec<String>>,
    ) -> (r: MapkyAppReview)
        ensures
            r@ == sanitized_review(
                ReviewView {
                    place: place@,
                    rating,
                    content: opt_text(content),
                    attachments: opt_texts(attachments),
                },
            ),
    {
        let review = MapkyAppReview { place, rating, content, attachments };
        review.sanitize()
    }

    /// A fresh timestamp identifier.
    pub fn create_id(&self) -> (id: String)
        ensures
            is_timestamp_id_shape(id@),
    {
        create_timestamp_id()
    }

    /// The path of the review with identifier `id`.
    pub fn create_path(id: &str) -> (p: String)
        ensures
            p@ == PUBLIC_PATH@ + MAPKY_PATH@ + "reviews/"@ + id@,
    {
        let mut p = String::from_str(PUBLIC_PATH);
        p.append(MAPKY_PATH);
        p.append("reviews/");
        p.append(id);
        p
    }

    /// Trims the content and normalizes the place and attachment URLs.
    pub fn sanitize(self) -> (r: MapkyAppReview)
        ensures
            r@ == sanitized_review(self@),
    {
        let place = sanitize_url(self.place.as_str());
        let content = trim_opt(self.content);
        let attachments = sanitize_opt_urls(self.attachments);
        MapkyAppReview { place, rating: self.rating, content, attachments }
    }

    /// Checks the review, given the outcome of the identifier check.
    pub fn validate_with(&self, id_check: Option<Result<(), String>>) -> (r: Result<
        (),
        ErrorMessage,
    >)
        ensures
            failure(r) == review_error(self@, id_check),
    {
        if let Some(Err(e)) = id_check {
            return Err(ErrorMessage::from_text(e));
        }
        validate_osm_url(self.place.as_str())?;
        if !(1 <= self.rating && self.rating <= 10) {
            return Err(
                numbered_text(
                    "Validation Error: Rating must be between 1 and 10, got ",
                    self.rating as u64,
                ),
            );
        }
        if let Some(c) = &self.content {
            if char_count(c.as_str()) > MAX_CONTENT_LENGTH {
                return Err(
                    ErrorMessage::from_str(
                        "Validation Error: Content exceeds maximum length of 5000 characters",
                    ),
                );
            }
        }
        match &self.attachments {
            None => Ok(()),
            Some(a) => validate_pubky_attachments(a),
        }
    }

    /// Checks the review, and the identifier `id` when given.
    pub fn validate(&self, id: Option<&str>) -> (r: Result<(), ErrorMessage>)
        ensures
            exists|v: Option<Result<(), String>>|
                #[trigger] is_id_verdict(id, v) && failure(r) == review_error(self@, v),
    {
        let v = check_id(id);
        self.validate_with(v)
    }
}

} // verus!
