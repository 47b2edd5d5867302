//! Posts about OpenStreetMap places: formal reviews (which carry a rating)
//! and general posts (comments, questions, replies, media).
//!
//! URI: `/pub/mapky.app/posts/:post_id`
use vstd::prelude::*;

use crate::checks::{
    check_id, id_error, is_id_verdict, numbered_text, opt_sanitized_url, opt_sanitized_urls,
    opt_text, opt_texts, opt_trimmed, sanitize_opt_url, sanitize_opt_urls, trim_opt,
};
use crate::common::{sanitize_url, sanitized_url};
use crate::constants::{MAPKY_PATH, MAX_CONTENT_LENGTH, PUBLIC_PATH};
use crate::ids::{create_timestamp_id, is_timestamp_id_shape};
use crate::message::{failure, text, ErrorMessage, Piece};
use crate::models::review::{attachments_error, validate_pubky_attachments};
use crate::text::{char_count, decimal, is_blank, is_blank_str};
use crate::url::{parse_url, url_parse};
use crate::validation::{osm_url_error, validate_osm_url};

verus! {

/// Whether a post is a formal review of a place or a general post.
#[derive(Clone, Copy, Debug, PartialEq, Eq, Structural)]
pub enum MapkyAppPostKind {
    /// A formal rating of a place: requires `rating`.
    Review,
    /// A comment, question, reply or media post: `rating` must be absent.
    Post,
}

/// A post about an OSM place.
#[derive(Clone, Debug)]
pub struct MapkyAppPost {
    pub kind: MapkyAppPostKind,
    /// Canonical OSM URL of the place.
    pub place: String,
    pub content: Option<String>,
    pub rating: Option<u8>,
    /// `pubky://` URIs of attached files.
    pub attachments: Option<Vec<String>>,
    /// URI of the post this one replies to.
    pub parent: Option<String>,
}

/// A post as the contracts see it.
pub struct PostView {
    pub kind: MapkyAppPostKind,
    pub place: Seq<char>,
    pub content: Option<Seq<char>>,
    pub rating: Option<u8>,
    pub attachments: Option<Seq<Seq<char>>>,
    pub parent: Option<Seq<char>>,
}

impl View for MapkyAppPost {
    type V = PostView;

    open spec fn view(&self) -> PostView {
        PostView {
            kind: self.kind,
            place: self.place@,
            content: opt_text(self.content),
            rating: self.rating,
            attachments: opt_texts(self.attachments),
            parent: opt_text(self.parent),
        }
    }
}

/// What `sanitize` makes of a post: place, parent and attachments
/// normalized as URLs, the content trimmed.
pub open spec fn sanitized_post(p: PostView) -> PostView {
    PostView {
        kind: p.kind,
        place: sanitized_url(p.place),
        content: opt_trimmed(p.content),
        rating: p.rating,
        attachments: opt_sanitized_urls(p.attachments),
        parent: opt_sanitized_url(p.parent),
    }
}

/// The post has content that is not blank.
pub open spec fn has_content(p: PostView) -> bool {
    p.content matches Some(c) && !is_blank(c)
}

/// The post has at least one attachment.
pub open spec fn has_attachments(p: PostView) -> bool {
    p.attachments matches Some(a) && a.len() > 0
}

/// The rules of each kind: a review has a rating; a general post has none,
/// and has content or attachments.
pub open spec fn post_kind_error(p: PostView) -> Option<Seq<Piece>> {
    match p.kind {
        MapkyAppPostKind::Review => if p.rating is None {
            Some(text("Validation Error: Review must have a rating"@))
        } else {
            None
        },
        MapkyAppPostKind::Post => if p.rating is Some {
            Some(text("Validation Error: Post kind cannot have a rating \u{2014} use Review"@))
        } else if !has_content(p) && !has_attachments(p) {
            Some(text("Validation Error: Post must have content or attachments"@))
        } else {
            None
        },
    }
}

/// The first rule a post breaks: the identifier (when checked), the place is
/// an OSM URL, the kind's rules, the content has at most 5000 characters,
/// the rating is 1 to 10, the parent parses as a URL, the attachments.
pub open spec fn post_error(p: PostView, id_check: Option<Result<(), String>>) -> Option<
    Seq<Piece>,
> {
    if id_error(id_check) is Some {
        id_error(id_check)
    } else if osm_url_error(p.place) is Some {
        osm_url_error(p.place)
    } else if post_kind_error(p) is Some {
        post_kind_error(p)
    } else if p.content matches Some(c) && c.len() > MAX_CONTENT_LENGTH {
        Some(text("Validation Error: Content exceeds maximum length of 5000 characters"@))
    } else if p.rating matches Some(r) && !(1 <= r && r <= 10) {
        Some(
            text(
                "Validation Error: Rating must be between 1 and 10, got "@ + decimal(
                    p.rating.unwrap() as nat,
                ),
            ),
        )
    } else if p.parent matches Some(u) && url_parse(u) is Err {
        Some(text("Validation Error: Invalid parent URI format: "@ + p.parent.unwrap()))
    } else {
        attachments_error(p.attachments)
    }
}

impl MapkyAppPost {
    /// A post of the given fields, sanitized.
    pub fn new(
        kind: MapkyAppPostKind,
        place: String,
        content: Option<String>,
        rating: Option<u8>,
        attachments: Option<Vec<String>>,
        parent: Option<String>,
    ) -> (p: MapkyAppPost)
        ensures
            p@ == sanitized_post(
                PostView {
                    kind,
                    place: place@,
                    content: opt_text(content),
                    rating,
                    attachments: opt_texts(attachments),
                    parent: opt_text(parent),
                },
            ),
    {
        let post = MapkyAppPost { kind, place, content, rating, attachments, parent };
        post.sanitize()
    }

    /// A fresh timestamp identifier.
    pub fn create_id(&self) -> (id: String)
        ensures
            is_timestamp_id_shape(id@),
    {
        create_timestamp_id()
    }

    /// The path of the post with identifier `id`.
    pub fn create_path(id: &str) -> (p: String)
        ensures
            p@ == PUBLIC_PATH@ + MAPKY_PATH@ + "posts/"@ + id@,
    {
        let mut p = String::from_str(PUBLIC_PATH);
        p.append(MAPKY_PATH);
        p.append("posts/");
        p.append(id);
        p
    }

    /// Normalizes the place, parent and attachment URLs and trims the
    /// content.
    pub fn sanitize(self) -> (r: MapkyAppPost)
        ensures
            r@ == sanitized_post(self@),
    {
        let place = sanitize_url(self.place.as_str());
        let content = trim_opt(self.content);
        let parent = sanitize_opt_url(self.parent);
        let attachments = sanitize_opt_urls(self.attachments);
        MapkyAppPost { kind: self.kind, place, content, rating: self.rating, attachments, parent }
    }

    fn validate_kind(&self) -> (r: Result<(), ErrorMessage>)
        ensures
            failure(r) == post_kind_error(self@),
    {
        match self.kind {
            MapkyAppPostKind::Review => {
                if self.rating.is_none() {
                    return Err(
                        ErrorMessage::from_str("Validation Error: Review must have a rating"),
                    );
                }
            },
            MapkyAppPostKind::Post => {
                if self.rating.is_some() {
                    return Err(
                        ErrorMessage::from_str(
                            "Validation Error: Post kind cannot have a rating \u{2014} use Review",
                        ),
                    );
                }
                let content_given: bool = match &self.content {
                    Some(c) => !is_blank_str(c.as_str()),
                    None => false,
                };
                let attachments_given: bool = match &self.attachments {
                    Some(a) => a.len() > 0,
                    None => false,
                };
                if !content_given && !attachments_given {
                    return Err(
                        ErrorMessage::from_str(
                            "Validation Error: Post must have content or attachments",
                        ),
                    );
                }
            },
        }
        Ok(())
    }

    /// Checks the post, given the outcome of the identifier check.
    pub fn validate_with(&self, id_check: Option<Result<(), String>>) -> (r: Result<
        (),
        ErrorMessage,
    >)
        ensures
            failure(r) == post_error(self@, id_check),
    {
        if let Some(Err(e)) = id_check {
            return Err(ErrorMessage::from_text(e));
        }
        validate_osm_url(self.place.as_str())?;
        self.validate_kind()?;
        if let Some(c) = &self.content {
            if char_count(c.as_str()) > MAX_CONTENT_LENGTH {
                return Err(
                    ErrorMessage::from_str(
                        "Validation Error: Content exceeds maximum length of 5000 characters",
                    ),
                );
            }
        }
        if let Some(rating) = self.rating {
            if !(1 <= rating && rating <= 10) {
                return Err(
                    numbered_text(
                        "Validation Error: Rating must be between 1 and 10, got ",
                        rating as u64,
                    ),
                );
            }
        }
        if let Some(u) = &self.parent {
            if parse_url(u.as_str()).is_err() {
                let mut t = String::from_str("Validation Error: Invalid parent URI format: ");
                t.append(u.as_str());
                return Err(ErrorMessage::from_text(t));
            }
        }
        match &self.attachments {
            None => Ok(()),
            Some(a) => validate_pubky_attachments(a),
        }
    }

    /// Checks the post, and the identifier `id` when given.
    pub fn validate(&self, id: Option<&str>) -> (r: Result<(), ErrorMessage>)
        ensures
            exists|v: Option<Result<(), String>>|
                #[trigger] is_id_verdict(id, v) && failure(r) == post_error(self@, v),
    {
        let v = check_id(id);
        self.validate_with(v)
    }
}

} // verus!
