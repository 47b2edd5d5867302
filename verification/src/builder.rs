//! Creation of MapKy objects for an author: each object is built, given a
//! fresh timestamp identifier, validated with it, and returned with its
//! path and `pubky://` URL.
use vstd::prelude::*;

use crate::checks::{
    is_id_verdict, opt_sanitized_url, opt_sanitized_urls, opt_text, opt_texts, sanitize_opt_url,
    sanitize_opt_urls,
};
use crate::common::{normalized_or_kept, sanitize_url, sanitized_url, timestamp, BoundingBox};
use crate::ids::{
    create_timestamp_id, crockford_decode, id_accepted, id_check_outcome, id_rejection,
    id_future_error, is_timestamp_id_shape, pubky_tag_id, tag_hash_id,
};
use crate::message::{failure, text, ErrorMessage};
use crate::models::geo_capture::{
    geo_capture_error, sanitized_geo_capture, GeoCaptureKind, GeoCaptureView, MapkyAppGeoCapture,
};
use crate::models::incident::{
    incident_error, IncidentSeverity, IncidentType, IncidentView, MapkyAppIncident,
};
use crate::models::review::{review_error, sanitized_review, MapkyAppReview, ReviewView};
use crate::models::route::{
    route_error, sanitized_route, waypoint_views, MapkyAppRoute, RouteActivityType, RouteView,
    Waypoint,
};
use crate::models::sequence::{sanitized_sequence, sequence_error, MapkyAppSequence, SequenceView};
use crate::text::{lowercase, trim, trimmed};
use crate::url::url_parse;
use crate::utils::{resource_path, resource_uri};
use pubky_app_specs::traits::Validatable;
use vstd::string::StringSliceAdditionalSpecFns;
use vstd::utf8::encode_utf8;

verus! {

/// Identifier, path and URL of a created object.
#[derive(Clone, Debug)]
pub struct MapkyMeta {
    id: String,
    path: String,
    url: String,
}

/// A `MapkyMeta` as the contracts see it.
pub struct MetaView {
    pub id: Seq<char>,
    pub path: Seq<char>,
    pub url: Seq<char>,
}

impl View for MapkyMeta {
    type V = MetaView;

    closed spec fn view(&self) -> MetaView {
        MetaView { id: self.id@, path: self.path@, url: self.url@ }
    }
}

/// `m` describes an object with a fresh timestamp identifier, stored in
/// `directory` on the homeserver of `author`.
pub open spec fn describes(m: MetaView, author: Seq<char>, directory: Seq<char>) -> bool {
    &&& is_timestamp_id_shape(m.id)
    &&& m.path == resource_path(directory, m.id)
    &&& m.url == resource_uri(author, m.path)
}

/// `c` is an outcome the identifier check can give for the timestamp
/// identifier `id`.
pub open spec fn id_outcome_of(id: Seq<char>, c: Result<(), String>) -> bool {
    &&& is_timestamp_id_shape(id)
    &&& id_check_outcome(encode_utf8(id).len(), crockford_decode(id), c)
}

impl MapkyMeta {
    /// The identifier.
    pub fn id(&self) -> (s: String)
        ensures
            s@ == self@.id,
    {
        self.id.clone()
    }

    /// The path on the homeserver.
    pub fn path(&self) -> (s: String)
        ensures
            s@ == self@.path,
    {
        self.path.clone()
    }

    /// The `pubky://` URL.
    pub fn url(&self) -> (s: String)
        ensures
            s@ == self@.url,
    {
        self.url.clone()
    }

    /// The metadata of the object `id` at `path` of the author `pubky_id`.
    pub fn from_object(id: &str, pubky_id: &str, path: String) -> (m: MapkyMeta)
        ensures
            m@ == (MetaView { id: id@, path: path@, url: resource_uri(pubky_id@, path@) }),
    {
        let mut url = String::from_str(crate::constants::PROTOCOL);
        url.append(pubky_id);
        url.append(path.as_str());
        MapkyMeta { id: String::from_str(id), path, url }
    }
}

/// The message `PubkyId::try_from` gives for a text that is not 52 bytes
/// long.
pub open spec fn key_length_error() -> Seq<char> {
    "Validation Error: the string is not 52 utf chars"@
}

/// A key text of `len` bytes other than 52 is rejected with the length
/// message.
pub open spec fn respects_key_length_rule(len: nat, r: Result<String, String>) -> bool {
    len != 52 ==> (r matches Err(e) && e@ == key_length_error())
}

/// What `PubkyId::try_from` makes of a text: the key's `z32` spelling, or
/// the error message. It depends on the text alone.
pub uninterp spec fn pubky_key_text(s: Seq<char>) -> Result<Seq<char>, Seq<char>>;

/// The view of a key outcome.
pub open spec fn key_outcome(r: Result<String, String>) -> Result<Seq<char>, Seq<char>> {
    match r {
        Ok(t) => Ok(t@),
        Err(e) => Err(e@),
    }
}

/// `PubkyId::try_from`, then its `Display` text (the `z32` field). The
/// function first rejects a text that is not 52 bytes long with a fixed
/// message; beyond that, what it accepts and how the key is spelled back is
/// the Pkarr decoder's, named `pubky_key_text` and not described further.
#[verifier::external_body]
fn parse_pubky_id(s: &str) -> (r: Result<String, String>)
    ensures
        key_outcome(r) == pubky_key_text(s@),
        respects_key_length_rule(s.spec_bytes().len(), r),
{
    match pubky_app_specs::PubkyId::try_from(s) {
        Ok(id) => Ok(id.to_string()),
        Err(e) => Err(e),
    }
}

/// The kind of a Pubky post (`pubky_app_specs::PubkyAppPostKind`);
/// `Unknown` stands for a kind the specification does not know.
#[derive(Clone, Copy, Debug, PartialEq, Eq, Structural)]
pub enum PubkyPostKind {
    Short,
    Long,
    Image,
    Video,
    Link,
    File,
    Collection,
    Unknown,
}

impl PubkyPostKind {
    /// The lowercase name `PubkyAppPostKind` parses from and displays as;
    /// `unknown` for `Unknown`, which no name parses to.
    pub fn name(&self) -> (s: &'static str) {
        match self {
            PubkyPostKind::Short => "short",
            PubkyPostKind::Long => "long",
            PubkyPostKind::Image => "image",
            PubkyPostKind::Video => "video",
            PubkyPostKind::Link => "link",
            PubkyPostKind::File => "file",
            PubkyPostKind::Collection => "collection",
            PubkyPostKind::Unknown => "unknown",
        }
    }
}

/// Content embedded in a Pubky post.
#[derive(Clone, Debug)]
pub struct PubkyPostEmbed {
    pub kind: PubkyPostKind,
    pub uri: String,
}

/// A Pubky post (the `pubky_app_specs` post, without a lock), stored under
/// the MapKy directory.
#[derive(Clone, Debug)]
pub struct PubkyPost {
    pub content: String,
    pub kind: PubkyPostKind,
    pub parent: Option<String>,
    pub embed: Option<PubkyPostEmbed>,
    pub attachments: Option<Vec<String>>,
}

/// A Pubky post as the contracts see it; an embed is its kind and URI.
pub struct PubkyPostView {
    pub content: Seq<char>,
    pub kind: PubkyPostKind,
    pub parent: Option<Seq<char>>,
    pub embed: Option<(PubkyPostKind, Seq<char>)>,
    pub attachments: Option<Seq<Seq<char>>>,
}

/// The view of an optional embed.
pub open spec fn embed_view(e: Option<PubkyPostEmbed>) -> Option<(PubkyPostKind, Seq<char>)> {
    match e {
        Some(x) => Some((x.kind, x.uri@)),
        None => None,
    }
}

impl View for PubkyPost {
    type V = PubkyPostView;

    open spec fn view(&self) -> PubkyPostView {
        PubkyPostView {
            content: self.content@,
            kind: self.kind,
            parent: opt_text(self.parent),
            embed: embed_view(self.embed),
            attachments: opt_texts(self.attachments),
        }
    }
}

/// What `PubkyAppPost::new` makes of its fields. Its whole behaviour is its
/// `sanitize`: the content trimmed; the parent, embed and attachment URLs
/// passed through `pubky_app_specs::common::sanitize_url`, which trims the
/// text and keeps `Url::parse(..).to_string()` when it parses, exactly as
/// `sanitize_url` here.
pub open spec fn sanitized_pubky_post(p: PubkyPostView) -> PubkyPostView {
    PubkyPostView {
        content: trimmed(p.content),
        kind: p.kind,
        parent: opt_sanitized_url(p.parent),
        embed: match p.embed {
            Some((k, u)) => Some((k, sanitized_url(u))),
            None => None,
        },
        attachments: opt_sanitized_urls(p.attachments),
    }
}

/// `PubkyAppPost::new` (with no lock), written with the library's own
/// sanitization and proved against `sanitized_pubky_post`.
pub fn new_pubky_post(
    content: String,
    kind: PubkyPostKind,
    parent: Option<String>,
    embed: Option<PubkyPostEmbed>,
    attachments: Option<Vec<String>>,
) -> (p: PubkyPost)
    ensures
        p@ == sanitized_pubky_post(
            PubkyPostView {
                content: content@,
                kind,
                parent: opt_text(parent),
                embed: embed_view(embed),
                attachments: opt_texts(attachments),
            },
        ),
{
    let embed = match embed {
        Some(e) => Some(PubkyPostEmbed { kind: e.kind, uri: sanitize_url(e.uri.as_str()) }),
        None => None,
    };
    PubkyPost {
        content: trim(content.as_str()),
        kind,
        parent: sanitize_opt_url(parent),
        embed,
        attachments: sanitize_opt_urls(attachments),
    }
}

/// What `Validatable::validate(None)` of `PubkyAppPost` reports for a post
/// with no lock: the first of its post rules that the post breaks
/// (content present, not the deleted marker, kinds known, collection
/// content, length by kind, parent, embed and attachment URLs), or `None`.
/// It depends on the post alone.
pub uninterp spec fn pubky_post_rule_error(p: PubkyPostView) -> Option<Seq<char>>;

/// `r` is an outcome `PubkyAppPost::validate(Some(id))` can give: the
/// identifier is checked first, and a rejected identifier gives its
/// message; otherwise either the identifier's timestamp is too far ahead
/// of the clock, or the post rules decide.
pub open spec fn post_check_outcome(
    len: nat,
    decoded: Option<Seq<u8>>,
    rule: Option<Seq<char>>,
    r: Result<(), String>,
) -> bool {
    match id_rejection(len, decoded) {
        Some(m) => r matches Err(e) && e@ == m,
        None => (r matches Err(e) && e@ == id_future_error()) || match rule {
            Some(m) => r matches Err(e) && e@ == m,
            None => r is Ok,
        },
    }
}

/// `Validatable::validate` of the post, with no lock, and the identifier
/// `id`: `TimestampId::validate_id` first, then the post rules, named
/// `pubky_post_rule_error`. Which of the rules and the clock's future
/// rule decides depends on the clock.
#[verifier::external_body]
fn validate_pubky_post(p: &PubkyPost, id: &str) -> (r: Result<(), String>)
    ensures
        post_check_outcome(
            id.spec_bytes().len(),
            crockford_decode(id@),
            pubky_post_rule_error(p@),
            r,
        ),
{
    let kind = |k: &PubkyPostKind| {
        k.name().parse().unwrap_or(pubky_app_specs::PubkyAppPostKind::Unknown)
    };
    let embed = p.embed.as_ref().map(|e| pubky_app_specs::PubkyAppPostEmbed {
        kind: kind(&e.kind),
        uri: e.uri.clone(),
    });
    pubky_app_specs::PubkyAppPost {
        content: p.content.clone(),
        kind: kind(&p.kind),
        parent: p.parent.clone(),
        embed,
        attachments: p.attachments.clone(),
        lock: None,
    }.validate(Some(id))
}

/// A Pubky tag on a URI.
pub struct PubkyTag {
    pub uri: String,
    pub label: String,
    /// When the tag was made, UNIX microseconds.
    pub created_at: i64,
}

/// `Validatable::sanitize` of a `PubkyAppTag`: the label trimmed and
/// lowercased; the URI as `Url::parse(uri).to_string()` when it parses,
/// else trimmed.
#[verifier::external_body]
fn sanitize_pubky_tag(uri: &str, label: &str) -> (r: (String, String))
    ensures
        r.0@ == normalized_or_kept(trimmed(uri@), url_parse(uri@)),
        r.1@ == lowercase(trimmed(label@)),
{
    let t = pubky_app_specs::PubkyAppTag {
        uri: uri.to_string(),
        label: label.to_string(),
        created_at: 0,
    }.sanitize();
    (t.uri, t.label)
}

/// A created Pubky post with its metadata.
pub struct MapkyPostResult {
    pub post: PubkyPost,
    pub meta: MapkyMeta,
}

impl MapkyPostResult {
    pub fn post(&self) -> (p: &PubkyPost)
        ensures
            p == &self.post,
    {
        &self.post
    }

    pub fn meta(&self) -> (m: &MapkyMeta)
        ensures
            m == &self.meta,
    {
        &self.meta
    }
}

/// A created Pubky tag with its metadata.
pub struct MapkyTagResult {
    pub tag: PubkyTag,
    pub meta: MapkyMeta,
}

impl MapkyTagResult {
    pub fn tag(&self) -> (t: &PubkyTag)
        ensures
            t == &self.tag,
    {
        &self.tag
    }

    pub fn meta(&self) -> (m: &MapkyMeta)
        ensures
            m == &self.meta,
    {
        &self.meta
    }
}

/// A created review with its metadata.
pub struct MapkyReviewResult {
    pub review: MapkyAppReview,
    pub meta: MapkyMeta,
}

impl MapkyReviewResult {
    pub fn review(&self) -> (r: &MapkyAppReview)
        ensures
            r == &self.review,
    {
        &self.review
    }

    pub fn meta(&self) -> (m: &MapkyMeta)
        ensures
            m == &self.meta,
    {
        &self.meta
    }
}

/// A created incident with its metadata.
pub struct MapkyIncidentResult {
    pub incident: MapkyAppIncident,
    pub meta: MapkyMeta,
}

impl MapkyIncidentResult {
    pub fn incident(&self) -> (r: &MapkyAppIncident)
        ensures
            r == &self.incident,
    {
        &self.incident
    }

    pub fn meta(&self) -> (m: &MapkyMeta)
        ensures
            m == &self.meta,
    {
        &self.meta
    }
}

/// A created geo-capture with its metadata.
pub struct MapkyGeoCaptureResult {
    pub geo_capture: MapkyAppGeoCapture,
    pub meta: MapkyMeta,
}

impl MapkyGeoCaptureResult {
    pub fn geo_capture(&self) -> (r: &MapkyAppGeoCapture)
        ensures
            r == &self.geo_capture,
    {
        &self.geo_capture
    }

    pub fn meta(&self) -> (m: &MapkyMeta)
        ensures
            m == &self.meta,
    {
        &self.meta
    }
}

/// A created route with its metadata.
pub struct MapkyRouteResult {
    pub route: MapkyAppRoute,
    pub meta: MapkyMeta,
}

impl MapkyRouteResult {
    pub fn route(&self) -> (r: &MapkyAppRoute)
        ensures
            r == &self.route,
    {
        &self.route
    }

    pub fn meta(&self) -> (m: &MapkyMeta)
        ensures
            m == &self.meta,
    {
        &self.meta
    }
}

/// A created sequence with its metadata.
pub struct MapkySequenceResult {
    pub sequence: MapkyAppSequence,
    pub meta: MapkyMeta,
}

impl MapkySequenceResult {
    pub fn sequence(&self) -> (r: &MapkyAppSequence)
        ensures
            r == &self.sequence,
    {
        &self.sequence
    }

    pub fn meta(&self) -> (m: &MapkyMeta)
        ensures
            m == &self.meta,
    {
        &self.meta
    }
}

/// Creates MapKy objects for one author.
pub struct MapkySpecsBuilder {
    pubky_id: String,
}

impl View for MapkySpecsBuilder {
    type V = Seq<char>;

    /// The author's public key, in its `z32` spelling.
    closed spec fn view(&self) -> Seq<char> {
        self.pubky_id@
    }
}

/// The sequence bounding box of four optional bounds: a box only when all
/// four are given.
pub open spec fn bounds_box(
    min_lat: Option<u64>,
    min_lon: Option<u64>,
    max_lat: Option<u64>,
    max_lon: Option<u64>,
) -> Option<BoundingBox> {
    match (min_lat, min_lon, max_lat, max_lon) {
        (Some(a), Some(b), Some(c), Some(d)) => Some(
            BoundingBox { min_lat: a, min_lon: b, max_lat: c, max_lon: d },
        ),
        _ => None,
    }
}

impl MapkySpecsBuilder {
    /// A builder for the author with the public key `pubky_id`.
    pub fn new(pubky_id: String) -> (r: Result<MapkySpecsBuilder, String>)
        ensures
            encode_utf8(pubky_id@).len() != 52 ==> (r matches Err(e) && e@
                == key_length_error()),
            r matches Ok(b) ==> pubky_key_text(pubky_id@) == Ok::<Seq<char>, Seq<char>>(b@),
            r matches Err(e) ==> pubky_key_text(pubky_id@) == Err::<Seq<char>, Seq<char>>(e@),
    {
        match parse_pubky_id(pubky_id.as_str()) {
            Ok(z32) => Ok(MapkySpecsBuilder { pubky_id: z32 }),
            Err(e) => Err(e),
        }
    }

    /// Creates a review of a place: built and sanitized, identified by a
    /// fresh timestamp, validated with that identifier.
    pub fn create_review(
        &self,
        place: String,
        rating: u8,
        content: Option<String>,
        attachments: Option<Vec<String>>,
    ) -> (r: Result<MapkyReviewResult, ErrorMessage>)
        ensures
            ({
                let x = sanitized_review(
                    ReviewView {
                        place: place@,
                        rating,
                        content: opt_text(content),
                        attachments: opt_texts(attachments),
                    },
                );
                match r {
                    Ok(res) => id_accepted(res.meta@.id) && res.review@ == x && review_error(x, None) is None && describes(
                        res.meta@,
                        self@,
                        "reviews/"@,
                    ),
                    Err(e) => exists|id: Seq<char>, c: Result<(), String>|
                        #![trigger id_outcome_of(id, c), review_error(x, Some(c))]
                        id_outcome_of(id, c) && Some(e@) == review_error(x, Some(c)),
                }
            }),
    {
        let review = MapkyAppReview::new(place, rating, content, attachments);
        let review_id = review.create_id();
        let id_text = review_id.as_str();
        let checked = review.validate(Some(id_text));
        proof {
            let v = choose|v: Option<Result<(), String>>|
                #[trigger] is_id_verdict(Some(id_text), v) && failure(checked) == review_error(review@, v);
            assert(id_outcome_of(id_text@, v.unwrap()));
            assert(review_error(review@, Some(v.unwrap())) == failure(checked));
            if checked is Ok {
                assert(v.unwrap() is Ok);
                assert(id_accepted(id_text@));
            }
        }
        match checked {
            Ok(()) => {
                let path = MapkyAppReview::create_path(review_id.as_str());
                let meta = MapkyMeta::from_object(review_id.as_str(), self.pubky_id.as_str(), path);
                Ok(MapkyReviewResult { review, meta })
            },
            Err(e) => Err(e),
        }
    }

    /// Creates an incident report at the given coordinates, identified by a
    /// fresh timestamp and validated with that identifier against the clock.
    pub fn create_incident(
        &self,
        incident_type: IncidentType,
        severity: IncidentSeverity,
        lat: u64,
        lon: u64,
    ) -> (r: Result<MapkyIncidentResult, ErrorMessage>)
        ensures
            ({
                let x = IncidentView {
                    incident_type,
                    severity,
                    lat,
                    lon,
                    heading: None,
                    description: None,
                    attachments: None,
                    expires_at: None,
                };
                match r {
                    Ok(res) => id_accepted(res.meta@.id) && res.incident@ == x && (exists|now: i64|
                        #[trigger] incident_error(x, None, now) is None) && describes(
                        res.meta@,
                        self@,
                        "incidents/"@,
                    ),
                    Err(e) => exists|id: Seq<char>, c: Result<(), String>, now: i64|
                        #![trigger id_outcome_of(id, c), incident_error(x, Some(c), now)]
                        id_outcome_of(id, c) && Some(e@) == incident_error(x, Some(c), now),
                }
            }),
    {
        let incident = MapkyAppIncident::new(incident_type, severity, lat, lon);
        let incident_id = incident.create_id();
        let id_text = incident_id.as_str();
        let checked = incident.validate(Some(id_text));
        proof {
            let (v, now) = choose|v: Option<Result<(), String>>, now: i64|
                is_id_verdict(Some(id_text), v) && failure(checked)
                    == #[trigger] incident_error(incident@, v, now);
            assert(incident_error(incident@, Some(v.unwrap()), now) == failure(checked));
            assert(id_outcome_of(id_text@, v.unwrap()));
            if checked is Ok {
                assert(v.unwrap() is Ok);
                assert(id_accepted(id_text@));
                assert(incident_error(incident@, None, now) is None);
            }
        }
        match checked {
            Ok(()) => {
                let path = MapkyAppIncident::create_path(incident_id.as_str());
                let meta = MapkyMeta::from_object(
                    incident_id.as_str(),
                    self.pubky_id.as_str(),
                    path,
                );
                Ok(MapkyIncidentResult { incident, meta })
            },
            Err(e) => Err(e),
        }
    }

    /// Creates a geo-capture of a media file: built with the given optional
    /// fields, sanitized, identified by a fresh timestamp and validated with
    /// that identifier against the clock.
    pub fn create_geo_capture(
        &self,
        file_uri: String,
        kind: GeoCaptureKind,
        lat: u64,
        lon: u64,
        ele: Option<u64>,
        heading: Option<u64>,
        pitch: Option<u64>,
        fov: Option<u64>,
        caption: Option<String>,
        captured_at: Option<i64>,
    ) -> (r: Result<MapkyGeoCaptureResult, ErrorMessage>)
        ensures
            ({
                let x = sanitized_geo_capture(
                    GeoCaptureView {
                        file_uri: sanitized_url(file_uri@),
                        kind,
                        lat,
                        lon,
                        ele,
                        heading,
                        pitch,
                        fov,
                        caption: opt_text(caption),
                        sequence_uri: None,
                        sequence_index: None,
                        captured_at,
                    },
                );
                match r {
                    Ok(res) => id_accepted(res.meta@.id) && res.geo_capture@ == x && (exists|now: i64|
                        #[trigger] geo_capture_error(x, None, now) is None) && describes(
                        res.meta@,
                        self@,
                        "geo_captures/"@,
                    ),
                    Err(e) => exists|id: Seq<char>, c: Result<(), String>, now: i64|
                        #![trigger id_outcome_of(id, c), geo_capture_error(x, Some(c), now)]
                        id_outcome_of(id, c) && Some(e@) == geo_capture_error(x, Some(c), now),
                }
            }),
    {
        let mut capture = MapkyAppGeoCapture::new(file_uri, kind, lat, lon);
        capture.ele = ele;
        capture.heading = heading;
        capture.pitch = pitch;
        capture.fov = fov;
        capture.caption = caption;
        capture.captured_at = captured_at;
        let capture = capture.sanitize();
        let capture_id = capture.create_id();
        let id_text = capture_id.as_str();
        let checked = capture.validate(Some(id_text));
        proof {
            let (v, now) = choose|v: Option<Result<(), String>>, now: i64|
                is_id_verdict(Some(id_text), v) && failure(checked)
                    == #[trigger] geo_capture_error(capture@, v, now);
            assert(geo_capture_error(capture@, Some(v.unwrap()), now) == failure(checked));
            assert(id_outcome_of(id_text@, v.unwrap()));
            if checked is Ok {
                assert(v.unwrap() is Ok);
                assert(id_accepted(id_text@));
                assert(geo_capture_error(capture@, None, now) is None);
            }
        }
        match checked {
            Ok(()) => {
                let path = MapkyAppGeoCapture::create_path(capture_id.as_str());
                let meta = MapkyMeta::from_object(
                    capture_id.as_str(),
                    self.pubky_id.as_str(),
                    path,
                );
                Ok(MapkyGeoCaptureResult { geo_capture: capture, meta })
            },
            Err(e) => Err(e),
        }
    }

    /// Creates a route through the given waypoints, identified by a fresh
    /// timestamp and validated with that identifier.
    pub fn create_route(
        &self,
        name: String,
        activity: RouteActivityType,
        waypoints: Vec<Waypoint>,
    ) -> (r: Result<MapkyRouteResult, ErrorMessage>)
        ensures
            ({
                let x = sanitized_route(
                    RouteView {
                        name: name@,
                        description: None,
                        activity,
                        waypoints: waypoint_views(waypoints),
                        osm_ways: None,
                        control_points: None,
                        steps: None,
                        distance_m: None,
                        elevation_gain_m: None,
                        elevation_loss_m: None,
                        estimated_duration_s: None,
                        image_uri: None,
                        geometry: None,
                    },
                );
                match r {
                    Ok(res) => id_accepted(res.meta@.id) && res.route@ == x && route_error(x, None) is None && describes(
                        res.meta@,
                        self@,
                        "routes/"@,
                    ),
                    Err(e) => exists|id: Seq<char>, c: Result<(), String>|
                        #![trigger id_outcome_of(id, c), route_error(x, Some(c))]
                        id_outcome_of(id, c) && Some(e@) == route_error(x, Some(c)),
                }
            }),
    {
        let route = MapkyAppRoute::new(name, activity, waypoints);
        let route_id = route.create_id();
        let id_text = route_id.as_str();
        let checked = route.validate(Some(id_text));
        proof {
            let v = choose|v: Option<Result<(), String>>|
                #[trigger] is_id_verdict(Some(id_text), v) && failure(checked) == route_error(route@, v);
            assert(id_outcome_of(id_text@, v.unwrap()));
            assert(route_error(route@, Some(v.unwrap())) == failure(checked));
            if checked is Ok {
                assert(v.unwrap() is Ok);
                assert(id_accepted(id_text@));
            }
        }
        match checked {
            Ok(()) => {
                let path = MapkyAppRoute::create_path(route_id.as_str());
                let meta = MapkyMeta::from_object(route_id.as_str(), self.pubky_id.as_str(), path);
                Ok(MapkyRouteResult { route, meta })
            },
            Err(e) => Err(e),
        }
    }

    /// Creates a capture sequence: built with the given optional fields and
    /// the bounding box when all four bounds are given, sanitized,
    /// identified by a fresh timestamp and validated with that identifier
    /// against the clock.
    pub fn create_sequence(
        &self,
        kind: GeoCaptureKind,
        captured_at_start: i64,
        captured_at_end: i64,
        capture_count: u32,
        name: Option<String>,
        description: Option<String>,
        device: Option<String>,
        min_lat: Option<u64>,
        min_lon: Option<u64>,
        max_lat: Option<u64>,
        max_lon: Option<u64>,
    ) -> (r: Result<MapkySequenceResult, ErrorMessage>)
        ensures
            ({
                let x = sanitized_sequence(
                    SequenceView {
                        name: opt_text(name),
                        description: opt_text(description),
                        kind,
                        captured_at_start,
                        captured_at_end,
                        capture_count,
                        bbox: bounds_box(min_lat, min_lon, max_lat, max_lon),
                        device: opt_text(device),
                    },
                );
                match r {
                    Ok(res) => id_accepted(res.meta@.id) && res.sequence@ == x && (exists|a: i64, b: i64|
                        #[trigger] sequence_error(x, None, a, b) is None) && describes(
                        res.meta@,
                        self@,
                        "sequences/"@,
                    ),
                    Err(e) => exists|id: Seq<char>, c: Result<(), String>, a: i64, b: i64|
                        #![trigger id_outcome_of(id, c), sequence_error(x, Some(c), a, b)]
                        id_outcome_of(id, c) && Some(e@) == sequence_error(x, Some(c), a, b),
                }
            }),
    {
        let mut sequence = MapkyAppSequence::new(
            kind,
            captured_at_start,
            captured_at_end,
            capture_count,
        );
        sequence.name = name;
        sequence.description = description;
        sequence.device = device;
        if let (Some(a), Some(b), Some(c), Some(d)) = (min_lat, min_lon, max_lat, max_lon) {
            sequence.bbox = Some(BoundingBox { min_lat: a, min_lon: b, max_lat: c, max_lon: d });
        }
        let sequence = sequence.sanitize();
        let sequence_id = sequence.create_id();
        let id_text = sequence_id.as_str();
        let checked = sequence.validate(Some(id_text));
        proof {
            let (v, a, b) = choose|v: Option<Result<(), String>>, a: i64, b: i64|
                is_id_verdict(Some(id_text), v) && failure(checked)
                    == #[trigger] sequence_error(sequence@, v, a, b);
            assert(sequence_error(sequence@, Some(v.unwrap()), a, b) == failure(checked));
            assert(id_outcome_of(id_text@, v.unwrap()));
            if checked is Ok {
                assert(v.unwrap() is Ok);
                assert(id_accepted(id_text@));
                assert(sequence_error(sequence@, None, a, b) is None);
            }
        }
        match checked {
            Ok(()) => {
                let path = MapkyAppSequence::create_path(sequence_id.as_str());
                let meta = MapkyMeta::from_object(
                    sequence_id.as_str(),
                    self.pubky_id.as_str(),
                    path,
                );
                Ok(MapkySequenceResult { sequence, meta })
            },
            Err(e) => Err(e),
        }
    }

    /// The metadata of a post stored under the MapKy directory with the
    /// identifier `post_id`: `/pub/mapky.app/posts/<post_id>`.
    pub fn post_meta(&self, post_id: &str) -> (m: MapkyMeta)
        ensures
            m@.id == post_id@,
            m@.path == resource_path("posts/"@, post_id@),
            m@.url == resource_uri(self@, m@.path),
    {
        let mut path = String::from_str(crate::constants::PUBLIC_PATH);
        path.append(crate::constants::MAPKY_PATH);
        path.append("posts/");
        path.append(post_id);
        MapkyMeta::from_object(post_id, self.pubky_id.as_str(), path)
    }

    /// The metadata of a tag with the identifier `tag_id`:
    /// `/pub/mapky.app/tags/<tag_id>`.
    pub fn tag_meta(&self, tag_id: &str) -> (m: MapkyMeta)
        ensures
            m@.id == tag_id@,
            m@.path == resource_path("tags/"@, tag_id@),
            m@.url == resource_uri(self@, m@.path),
    {
        let mut path = String::from_str("/pub/mapky.app/tags/");
        path.append(tag_id);
        proof {
            reveal_strlit("/pub/mapky.app/tags/");
            reveal_strlit("/pub/");
            reveal_strlit("mapky.app/");
            reveal_strlit("tags/");
            assert(path@ == resource_path("tags/"@, tag_id@));
        }
        MapkyMeta::from_object(tag_id, self.pubky_id.as_str(), path)
    }

    /// Creates a Pubky post (generic comment or threaded reply) stored under
    /// the MapKy directory at `/pub/mapky.app/posts/{id}`: built and
    /// sanitized, identified by a fresh timestamp and validated with that
    /// identifier.
    pub fn create_mapky_post(
        &self,
        content: String,
        kind: PubkyPostKind,
        parent: Option<String>,
        embed: Option<PubkyPostEmbed>,
        attachments: Option<Vec<String>>,
    ) -> (r: Result<MapkyPostResult, ErrorMessage>)
        ensures
            ({
                let x = sanitized_pubky_post(
                    PubkyPostView {
                        content: content@,
                        kind,
                        parent: opt_text(parent),
                        embed: embed_view(embed),
                        attachments: opt_texts(attachments),
                    },
                );
                match r {
                    Ok(res) => res.post@ == x && pubky_post_rule_error(x) is None && id_accepted(
                        res.meta@.id,
                    ) && describes(res.meta@, self@, "posts/"@),
                    Err(e) => exists|id: Seq<char>, c: Result<(), String>|
                        #![trigger is_timestamp_id_shape(id), post_check_outcome(encode_utf8(id).len(), crockford_decode(id), pubky_post_rule_error(x), c)]
                        is_timestamp_id_shape(id) && post_check_outcome(
                            encode_utf8(id).len(),
                            crockford_decode(id),
                            pubky_post_rule_error(x),
                            c,
                        ) && (c matches Err(m) && e@ == text(m@)),
                }
            }),
    {
        let post = new_pubky_post(content, kind, parent, embed, attachments);
        let post_id = create_timestamp_id();
        let id_text = post_id.as_str();
        let checked = validate_pubky_post(&post, id_text);
        match checked {
            Ok(()) => {
                let meta = self.post_meta(id_text);
                Ok(MapkyPostResult { post, meta })
            },
            Err(e) => {
                let m = ErrorMessage::from_text(e);
                assert(is_timestamp_id_shape(id_text@));
                assert(post_check_outcome(
                    encode_utf8(id_text@).len(),
                    crockford_decode(id_text@),
                    pubky_post_rule_error(post@),
                    checked,
                ));
                Err(m)
            },
        }
    }

    /// Creates a Pubky tag on a place (or any URI), stored at
    /// `/pub/mapky.app/tags/{id}`: the URI and label sanitized as
    /// `PubkyAppTag` does, the identifier the tag's hash identifier.
    pub fn create_place_tag(&self, uri: String, label: String) -> (r: MapkyTagResult)
        ensures
            r.tag.uri@ == normalized_or_kept(trimmed(uri@), url_parse(uri@)),
            r.tag.label@ == lowercase(trimmed(label@)),
            r.meta@.id == pubky_tag_id(r.tag.uri@, r.tag.label@),
            r.meta@.path == resource_path("tags/"@, r.meta@.id),
            r.meta@.url == resource_uri(self@, r.meta@.path),
    {
        let created_at = timestamp();
        let (tag_uri, tag_label) = sanitize_pubky_tag(uri.as_str(), label.as_str());
        let tag_id = tag_hash_id(tag_uri.as_str(), tag_label.as_str());
        let meta = self.tag_meta(tag_id.as_str());
        MapkyTagResult { tag: PubkyTag { uri: tag_uri, label: tag_label, created_at }, meta }
    }

}

} // verus!
