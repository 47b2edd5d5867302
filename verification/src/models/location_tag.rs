//! Categorized tags on OSM places, with an optional per-category rating.
//!
//! URI: `/pub/mapky.app/location_tags/:tag_id`, where the identifier is
//! derived from `{canonical place}:{category}:{label}`.
use vstd::prelude::*;

use crate::common::{sanitize_tag_label, sanitized_tag_label, tag_label_error, validate_tag_label};
use crate::constants::{
    INVALID_TAG_CHARS, MAPKY_PATH, MAX_TAG_LABEL_LENGTH, MIN_TAG_LABEL_LENGTH, PUBLIC_PATH,
};
use crate::ids::{pubky_tag_id, tag_hash_id};
use crate::message::{failure, text, ErrorMessage, Piece};
use crate::models::osm_ref::{canonical_text, osm_ref_error, OsmRef};
use crate::checks::numbered_text;
use crate::common::timestamp;
use crate::text::{decimal, replace_all, replace_str, str_equal};

verus! {

/// A tag of a place in a category, such as `safety` / `well-lit`.
#[derive(Clone, Debug)]
pub struct MapkyAppLocationTag {
    pub place: OsmRef,
    pub category: String,
    pub label: String,
    /// Rating within the category, 1 to 10.
    pub rating: Option<u8>,
    /// When the tag was made, UNIX microseconds.
    pub created_at: i64,
}

/// A location tag as the contracts see it.
pub struct LocationTagView {
    pub place: OsmRef,
    pub category: Seq<char>,
    pub label: Seq<char>,
    pub rating: Option<u8>,
    pub created_at: i64,
}

impl View for MapkyAppLocationTag {
    type V = LocationTagView;

    open spec fn view(&self) -> LocationTagView {
        LocationTagView {
            place: self.place,
            category: self.category@,
            label: self.label@,
            rating: self.rating,
            created_at: self.created_at,
        }
    }
}

/// The data the identifier is derived from: `{place}:{category}:{label}`.
pub open spec fn id_data(t: LocationTagView) -> Seq<char> {
    canonical_text(t.place) + ":"@ + t.category + ":"@ + t.label
}

/// The identifier of a tag: the hash identifier of its data, computed as
/// that of a Pubky tag on the canonical place with the label
/// `{category}:{label}` (whose data is the same text).
pub open spec fn location_tag_id(t: LocationTagView) -> Seq<char> {
    pubky_tag_id(canonical_text(t.place), t.category + ":"@ + t.label)
}

/// What `sanitize` makes of a tag: category and label trimmed and
/// lowercased.
pub open spec fn sanitized_location_tag(t: LocationTagView) -> LocationTagView {
    LocationTagView {
        category: sanitized_tag_label(t.category),
        label: sanitized_tag_label(t.label),
        ..t
    }
}

/// The label rules of a location tag.
pub open spec fn label_error(label: Seq<char>) -> Option<Seq<char>> {
    tag_label_error(
        label,
        MAX_TAG_LABEL_LENGTH as nat,
        MIN_TAG_LABEL_LENGTH as nat,
        INVALID_TAG_CHARS@,
    )
}

/// The text of an optional identifier.
pub open spec fn opt_id(id: Option<&str>) -> Option<Seq<char>> {
    match id {
        Some(s) => Some(s@),
        None => None,
    }
}

/// The first rule a tag breaks: the identifier (when given) is the tag's
/// own, the place has a positive id, the category and then the label follow
/// the label rules (the category's message names it a category), the rating
/// is 1 to 10.
pub open spec fn location_tag_error(t: LocationTagView, id: Option<Seq<char>>) -> Option<
    Seq<Piece>,
> {
    if id matches Some(i) && i != location_tag_id(t) {
        Some(
            text("Invalid ID: expected "@ + location_tag_id(t) + ", found "@ + id.unwrap()),
        )
    } else if osm_ref_error(t.place) is Some {
        osm_ref_error(t.place)
    } else if label_error(t.category) is Some {
        Some(text(replace_all(label_error(t.category).unwrap(), "Tag"@, "Category"@)))
    } else if label_error(t.label) is Some {
        Some(text(label_error(t.label).unwrap()))
    } else if t.rating matches Some(r) && !(1 <= r && r <= 10) {
        Some(
            text(
                "Validation Error: Rating must be between 1 and 10, got "@ + decimal(
                    t.rating.unwrap() as nat,
                ),
            ),
        )
    } else {
        None
    }
}

fn check_label(label: &str) -> (r: Result<(), String>)
    ensures
        match r {
            Ok(()) => label_error(label@) is None,
            Err(e) => label_error(label@) == Some(e@),
        },
{
    validate_tag_label(label, MAX_TAG_LABEL_LENGTH, MIN_TAG_LABEL_LENGTH, &INVALID_TAG_CHARS)
}

impl MapkyAppLocationTag {
    /// A tag of `place`, made now, sanitized.
    pub fn new(place: OsmRef, category: String, label: String, rating: Option<u8>) -> (r:
        MapkyAppLocationTag)
        ensures
            r@.place == place,
            r@.category == sanitized_tag_label(category@),
            r@.label == sanitized_tag_label(label@),
            r@.rating == rating,
    {
        let created_at = timestamp();
        let tag = MapkyAppLocationTag { place, category, label, rating, created_at };
        tag.sanitize()
    }

    /// The data the identifier is derived from: `{place}:{category}:{label}`.
    pub fn get_id_data(&self) -> (s: String)
        ensures
            s@ == id_data(self@),
    {
        let mut s = self.place.canonical();
        s.append(":");
        s.append(self.category.as_str());
        s.append(":");
        s.append(self.label.as_str());
        s
    }

    /// The identifier of the tag; it depends on the place, the category and
    /// the label only.
    pub fn create_id(&self) -> (id: String)
        ensures
            id@ == location_tag_id(self@),
    {
        let uri = self.place.canonical();
        let mut label = String::from_str(self.category.as_str());
        label.append(":");
        label.append(self.label.as_str());
        tag_hash_id(uri.as_str(), label.as_str())
    }

    /// The path of the tag with identifier `id`.
    pub fn create_path(id: &str) -> (p: String)
        ensures
            p@ == PUBLIC_PATH@ + MAPKY_PATH@ + "location_tags/"@ + id@,
    {
        let mut p = String::from_str(PUBLIC_PATH);
        p.append(MAPKY_PATH);
        p.append("location_tags/");
        p.append(id);
        p
    }

    /// Trims and lowercases the category and the label.
    pub fn sanitize(self) -> (r: MapkyAppLocationTag)
        ensures
            r@ == sanitized_location_tag(self@),
    {
        let category = sanitize_tag_label(self.category.as_str());
        let label = sanitize_tag_label(self.label.as_str());
        MapkyAppLocationTag {
            place: self.place,
            category,
            label,
            rating: self.rating,
            created_at: self.created_at,
        }
    }

    /// Checks the tag, and that `id`, when given, is its identifier.
    pub fn validate(&self, id: Option<&str>) -> (r: Result<(), ErrorMessage>)
        ensures
            failure(r) == location_tag_error(self@, opt_id(id)),
    {
        if let Some(given) = id {
            let expected = self.create_id();
            if !str_equal(expected.as_str(), given) {
                let mut t = String::from_str("Invalid ID: expected ");
                t.append(expected.as_str());
                t.append(", found ");
                t.append(given);
                return Err(ErrorMessage::from_text(t));
            }
        }
        self.place.validate()?;
        if let Err(e) = check_label(self.category.as_str()) {
            proof {
                reveal_strlit("Tag");
            }
            return Err(ErrorMessage::from_text(replace_str(e.as_str(), "Tag", "Category")));
        }
        if let Err(e) = check_label(self.label.as_str()) {
            return Err(ErrorMessage::from_text(e));
        }
        if let Some(rating) = self.rating {
            if !(1 <= rating && rating <= 10) {
                return Err(
                    numbered_text(
                        "Validation Error: Rating must be between 1 and 10, got ",
                        rating as u64,
                    ),
                );
            }
        }
        Ok(())
    }
}

} // verus!
