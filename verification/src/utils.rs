//! Builders of `pubky://` URIs for MapKy resources.
use vstd::prelude::*;

use crate::constants::{MAPKY_PATH, PROTOCOL, PUBLIC_PATH};
use crate::models::collection::MapkyAppCollection;
use crate::models::geo_capture::MapkyAppGeoCapture;
use crate::models::incident::MapkyAppIncident;
use crate::models::location_tag::MapkyAppLocationTag;
use crate::models::post::MapkyAppPost;
use crate::models::route::MapkyAppRoute;

verus! {

/// The path of a resource of the given directory (such as `"routes/"`)
/// under the MapKy application directory.
pub open spec fn resource_path(directory: Seq<char>, id: Seq<char>) -> Seq<char> {
    PUBLIC_PATH@ + MAPKY_PATH@ + directory + id
}

/// The URI of the resource at `path` on the homeserver of `author`.
pub open spec fn resource_uri(author: Seq<char>, path: Seq<char>) -> Seq<char> {
    PROTOCOL@ + author + path
}

/// `pubky://<user_id>/pub/mapky.app/`
pub fn mapky_base_uri_builder(user_id: String) -> (r: String)
    ensures
        r@ == PROTOCOL@ + user_id@ + PUBLIC_PATH@ + MAPKY_PATH@,
{
    let mut r = String::from_str(PROTOCOL);
    r.append(user_id.as_str());
    r.append(PUBLIC_PATH);
    r.append(MAPKY_PATH);
    r
}

/// `PROTOCOL`, then the author, then the path.
fn uri_of(author_id: &str, path: &str) -> (r: String)
    ensures
        r@ == resource_uri(author_id@, path@),
{
    let mut r = String::from_str(PROTOCOL);
    r.append(author_id);
    r.append(path);
    r
}

/// `pubky://<author_id>/pub/mapky.app/posts/<post_id>`
pub fn mapky_post_uri_builder(author_id: String, post_id: String) -> (r: String)
    ensures
        r@ == resource_uri(author_id@, resource_path("posts/"@, post_id@)),
{
    let path = MapkyAppPost::create_path(post_id.as_str());
    uri_of(author_id.as_str(), path.as_str())
}

/// `pubky://<author_id>/pub/mapky.app/location_tags/<tag_id>`
pub fn mapky_location_tag_uri_builder(author_id: String, tag_id: String) -> (r: String)
    ensures
        r@ == resource_uri(author_id@, resource_path("location_tags/"@, tag_id@)),
{
    let path = MapkyAppLocationTag::create_path(tag_id.as_str());
    uri_of(author_id.as_str(), path.as_str())
}

/// `pubky://<author_id>/pub/mapky.app/collections/<collection_id>`
pub fn mapky_collection_uri_builder(author_id: String, collection_id: String) -> (r: String)
    ensures
        r@ == resource_uri(author_id@, resource_path("collections/"@, collection_id@)),
{
    let path = MapkyAppCollection::create_path(collection_id.as_str());
    uri_of(author_id.as_str(), path.as_str())
}

/// `pubky://<author_id>/pub/mapky.app/incidents/<incident_id>`
pub fn mapky_incident_uri_builder(author_id: String, incident_id: String) -> (r: String)
    ensures
        r@ == resource_uri(author_id@, resource_path("incidents/"@, incident_id@)),
{
    let path = MapkyAppIncident::create_path(incident_id.as_str());
    uri_of(author_id.as_str(), path.as_str())
}

/// `pubky://<author_id>/pub/mapky.app/geo_captures/<capture_id>`
pub fn mapky_geo_capture_uri_builder(author_id: String, capture_id: String) -> (r: String)
    ensures
        r@ == resource_uri(author_id@, resource_path("geo_captures/"@, capture_id@)),
{
    let path = MapkyAppGeoCapture::create_path(capture_id.as_str());
    uri_of(author_id.as_str(), path.as_str())
}

/// `pubky://<author_id>/pub/mapky.app/routes/<route_id>`
pub fn mapky_route_uri_builder(author_id: String, route_id: String) -> (r: String)
    ensures
        r@ == resource_uri(author_id@, resource_path("routes/"@, route_id@)),
{
    let path = MapkyAppRoute::create_path(route_id.as_str());
    uri_of(author_id.as_str(), path.as_str())
}

} // verus!
