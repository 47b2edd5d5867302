//! Named lists of places.
//!
//! URI: `/pub/mapky.app/collections/:collection_id`
use vstd::prelude::*;

use crate::checks::{
    check_id, first_failure, id_error, is_id_verdict, numbered_message, opt_sanitized_url,
    opt_text, opt_trimmed, sanitize_opt_url, sanitize_urls, sanitized_urls, texts, trim_opt,
};
use crate::constants::{
    MAPKY_PATH, MAX_COLLECTION_ITEMS, MAX_COLLECTION_NAME_LENGTH, MAX_DESCRIPTION_LENGTH,
    PUBLIC_PATH,
};
use crate::ids::{create_timestamp_id, is_timestamp_id_shape};
use crate::message::{failure, text, ErrorMessage, Piece};
use crate::text::{char_count, decimal, is_blank, is_blank_str, trim, trimmed};
use crate::url::{parse_url, url_parse};
use crate::validation::{osm_url_error, validate_osm_url};

verus! {

/// A named list of places, by their OSM URLs.
#[derive(Clone, Debug)]
pub struct MapkyAppCollection {
    pub name: String,
    pub description: Option<String>,
    /// Canonical OSM URLs of the places, without repetition.
    pub items: Vec<String>,
    pub image_uri: Option<String>,
}

/// A collection as the contracts see it.
pub struct CollectionView {
    pub name: Seq<char>,
    pub description: Option<Seq<char>>,
    pub items: Seq<Seq<char>>,
    pub image_uri: Option<Seq<char>>,
}

impl View for MapkyAppCollection {
    type V = CollectionView;

    open spec fn view(&self) -> CollectionView {
        CollectionView {
            name: self.name@,
            description: opt_text(self.description),
            items: texts(self.items),
            image_uri: opt_text(self.image_uri),
        }
    }
}

/// What `sanitize` makes of a collection: name and description trimmed, the
/// item and image URLs normalized.
pub open spec fn sanitized_collection(c: CollectionView) -> CollectionView {
    CollectionView {
        name: trimmed(c.name),
        description: opt_trimmed(c.description),
        items: sanitized_urls(c.items),
        image_uri: opt_sanitized_url(c.image_uri),
    }
}

/// The failure of item `i`: an OSM URL, not equal to an earlier item.
pub open spec fn item_error(items: Seq<Seq<char>>, i: int) -> Option<Seq<Piece>> {
    if osm_url_error(items[i]) is Some {
        Some(
            text("Validation Error: Item at index "@ + decimal(i as nat) + ": "@) + osm_url_error(
                items[i],
            ).unwrap(),
        )
    } else if items.subrange(0, i).contains(items[i]) {
        Some(text("Validation Error: Duplicate item in collection: "@ + items[i]))
    } else {
        None
    }
}

/// The item checks of a list.
pub open spec fn item_checks(items: Seq<Seq<char>>) -> spec_fn(int) -> Option<Seq<Piece>> {
    |i: int| item_error(items, i)
}

/// The first rule a collection breaks: the identifier (when checked), the
/// name is not blank and has at most 200 characters, the description at
/// most 2000, at most 500 items, each item, the image URI parses.
pub open spec fn collection_error(c: CollectionView, id_check: Option<Result<(), String>>) -> Option<
    Seq<Piece>,
> {
    if id_error(id_check) is Some {
        id_error(id_check)
    } else if is_blank(c.name) {
        Some(text("Validation Error: Collection name cannot be empty"@))
    } else if c.name.len() > MAX_COLLECTION_NAME_LENGTH {
        Some(text("Validation Error: Collection name exceeds maximum length of 200 characters"@))
    } else if c.description matches Some(d) && d.len() > MAX_DESCRIPTION_LENGTH {
        Some(text("Validation Error: Description exceeds maximum length of 2000 characters"@))
    } else if c.items.len() > MAX_COLLECTION_ITEMS {
        Some(text("Validation Error: Collection exceeds maximum of 500 items"@))
    } else if first_failure(item_checks(c.items), 0, c.items.len() as int) is Some {
        first_failure(item_checks(c.items), 0, c.items.len() as int)
    } else if c.image_uri matches Some(u) && url_parse(u) is Err {
        Some(text("Validation Error: Invalid image URI: "@ + c.image_uri.unwrap()))
    } else {
        None
    }
}

/// Whether `items[i]` equals an earlier item.
fn repeats_earlier(items: &Vec<String>, i: usize) -> (r: bool)
    requires
        i < items@.len(),
    ensures
        r == texts(*items).subrange(0, i as int).contains(texts(*items)[i as int]),
{
    let ghost v = texts(*items);
    let mut j: usize = 0;
    while j < i
        invariant
            i < items@.len(),
            v == texts(*items),
            j <= i,
            forall|k: int| 0 <= k < j ==> v[k] != v[i as int],
        decreases i - j,
    {
        if items[j] == items[i] {
            assert(v.subrange(0, i as int)[j as int] == v[i as int]);
            return true;
        }
        j = j + 1;
    }
    assert forall|k: int| 0 <= k < i implies v.subrange(0, i as int)[k] != v[i as int] by {
        assert(v.subrange(0, i as int)[k] == v[k]);
    }
    false
}

fn validate_item(items: &Vec<String>, i: usize) -> (r: Result<(), ErrorMessage>)
    requires
        i < items@.len(),
    ensures
        failure(r) == item_error(texts(*items), i as int),
{
    assert(texts(*items)[i as int] == items@[i as int]@);
    if let Err(e) = validate_osm_url(items[i].as_str()) {
        let mut m = numbered_message("Validation Error: Item at index ", i as u64, ": ");
        m.append(e);
        return Err(m);
    }
    if repeats_earlier(items, i) {
        let mut t = String::from_str("Validation Error: Duplicate item in collection: ");
        t.append(items[i].as_str());
        return Err(ErrorMessage::from_text(t));
    }
    Ok(())
}

fn validate_items(items: &Vec<String>) -> (r: Result<(), ErrorMessage>)
    ensures
        failure(r) == first_failure(item_checks(texts(*items)), 0, items@.len() as int),
{
    let ghost v = texts(*items);
    let ghost f = item_checks(v);
    let n: usize = items.len();
    let mut i: usize = 0;
    while i < n
        invariant
            n == items@.len(),
            v == texts(*items),
            f == item_checks(v),
            i <= n,
            first_failure(f, 0, n as int) == first_failure(f, i as int, n as int),
        decreases n - i,
    {
        let r = validate_item(items, i);
        assert(f(i as int) == item_error(v, i as int));
        if r.is_err() {
            assert(first_failure(f, i as int, n as int) == f(i as int));
            return r;
        }
        i = i + 1;
    }
    Ok(())
}

impl MapkyAppCollection {
    /// A collection of the given fields, sanitized.
    pub fn new(
        name: String,
        description: Option<String>,
        items: Vec<String>,
        image_uri: Option<String>,
    ) -> (c: MapkyAppCollection)
        ensures
            c@ == sanitized_collection(
                CollectionView {
                    name: name@,
                    description: opt_text(description),
                    items: texts(items),
                    image_uri: opt_text(image_uri),
                },
            ),
    {
        let collection = MapkyAppCollection { name, description, items, image_uri };
        collection.sanitize()
    }

    /// A fresh timestamp identifier.
    pub fn create_id(&self) -> (id: String)
        ensures
            is_timestamp_id_shape(id@),
    {
        create_timestamp_id()
    }

    /// The path of the collection with identifier `id`.
    pub fn create_path(id: &str) -> (p: String)
        ensures
            p@ == PUBLIC_PATH@ + MAPKY_PATH@ + "collections/"@ + id@,
    {
        let mut p = String::from_str(PUBLIC_PATH);
        p.append(MAPKY_PATH);
        p.append("collections/");
        p.append(id);
        p
    }

    /// Trims name and description, normalizes the item and image URLs.
    pub fn sanitize(self) -> (r: MapkyAppCollection)
        ensures
            r@ == sanitized_collection(self@),
    {
        let name = trim(self.name.as_str());
        let description = trim_opt(self.description);
        let items = sanitize_urls(self.items);
        let image_uri = sanitize_opt_url(self.image_uri);
        MapkyAppCollection { name, description, items, image_uri }
    }

    /// Checks the collection, given the outcome of the identifier check.
    pub fn validate_with(&self, id_check: Option<Result<(), String>>) -> (r: Result<
        (),
        ErrorMessage,
    >)
        ensures
            failure(r) == collection_error(self@, id_check),
    {
        if let Some(Err(e)) = id_check {
            return Err(ErrorMessage::from_text(e));
        }
        if is_blank_str(self.name.as_str()) {
            return Err(ErrorMessage::from_str("Validation Error: Collection name cannot be empty"));
        }
        if char_count(self.name.as_str()) > MAX_COLLECTION_NAME_LENGTH {
            return Err(
                ErrorMessage::from_str(
                    "Validation Error: Collection name exceeds maximum length of 200 characters",
                ),
            );
        }
        if let Some(d) = &self.description {
            if char_count(d.as_str()) > MAX_DESCRIPTION_LENGTH {
                return Err(
                    ErrorMessage::from_str(
                        "Validation Error: Description exceeds maximum length of 2000 characters",
                    ),
                );
            }
        }
        if self.items.len() > MAX_COLLECTION_ITEMS {
            return Err(
                ErrorMessage::from_str("Validation Error: Collection exceeds maximum of 500 items"),
            );
        }
        validate_items(&self.items)?;
        if let Some(u) = &self.image_uri {
            if parse_url(u.as_str()).is_err() {
                let mut t = String::from_str("Validation Error: Invalid image URI: ");
                t.append(u.as_str());
                return Err(ErrorMessage::from_text(t));
            }
        }
        Ok(())
    }

    /// Checks the collection, and the identifier `id` when given.
    pub fn validate(&self, id: Option<&str>) -> (r: Result<(), ErrorMessage>)
        ensures
            exists|v: Option<Result<(), String>>|
                #[trigger] is_id_verdict(id, v) && failure(r) == collection_error(self@, v),
    {
        let v = check_id(id);
        self.validate_with(v)
    }
}

} // verus!
