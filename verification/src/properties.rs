//! Properties that hold of every value the validators accept, and of the
//! sanitizers.
use vstd::prelude::*;

use crate::checks::{first_failure, is_id_verdict, lemma_no_failure};
use crate::message::Piece;
use crate::models::geo_capture::sanitized_geo_capture;
use crate::models::incident::sanitized_incident;
use crate::ids::pubky_tag_id;
use crate::models::osm_ref::canonical_text;
use crate::models::object::{is_validation_outcome, sanitized_object, ObjectView};
use crate::models::review::sanitized_review;
use crate::models::route::sanitized_route;
use crate::common::{bbox_error, BoundingBox};
use crate::constants::{
    MAX_COLLECTION_ITEMS, MAX_INCIDENT_ATTACHMENTS, MAX_ROUTE_WAYPOINTS, MAX_SEQUENCE_CAPTURE_COUNT, MIN_WAYPOINTS,
};
use crate::float::{float_in_range, float_is_nan, float_key, MINUS_NINETY_BITS, NINETY_BITS};
use crate::models::collection::{collection_error, item_checks, item_error, CollectionView};
use crate::models::geo_capture::{
    fov_error, geo_capture_error, orientation_error, sequence_link_error, GeoCaptureView,
};
use crate::models::incident::{
    incident_attachment_checks, incident_attachments_error, incident_error, IncidentView,
};
use crate::models::location_tag::{
    id_data, label_error, location_tag_error, location_tag_id, LocationTagView,
};
use crate::models::post::{post_error, post_kind_error, MapkyAppPostKind, PostView};
use crate::models::review::{review_error, ReviewView};
use crate::models::route::{
    route_error, step_checks, steps_error, waypoint_checks, waypoints_error, RouteView,
};
use crate::models::sequence::{sanitized_sequence, sequence_error, SequenceView};
use crate::text::{is_white_space, trim_end, trim_start, trimmed};
use crate::validation::{
    coordinates_error, osm_url_error, osm_way_url_error, pubky_uri_error, timestamp_error,
};

verus! {

/// A URL accepted as an OSM Way URL is accepted as an OSM URL.
pub proof fn way_url_is_osm_url(url: Seq<char>)
    requires
        osm_way_url_error(url) is None,
    ensures
        osm_url_error(url) is None,
{
}

/// A timestamp that is zero or negative is rejected, whatever the clock
/// reads.
pub proof fn nonpositive_timestamp_rejected(ts: i64, field: Seq<char>, now: i64)
    requires
        ts <= 0,
    ensures
        timestamp_error(ts, field, now) is Some,
{
}

/// An accepted post is a review exactly when it carries a rating, the
/// rating lies within 1..=10, and its place is a valid OSM URL.
pub proof fn valid_post_rated_iff_review(p: PostView, id_check: Option<Result<(), String>>)
    requires
        post_error(p, id_check) is None,
    ensures
        (p.kind == MapkyAppPostKind::Review) <==> (p.rating is Some),
        p.rating matches Some(r) ==> 1 <= r && r <= 10,
        osm_url_error(p.place) is None,
{
    assert(post_kind_error(p) is None);
}

/// An accepted review has a rating within 1..=10 and a valid OSM URL as its
/// place.
pub proof fn valid_review_rating_in_range(r: ReviewView, id_check: Option<Result<(), String>>)
    requires
        review_error(r, id_check) is None,
    ensures
        1 <= r.rating && r.rating <= 10,
        osm_url_error(r.place) is None,
{
}

/// An accepted sequence starts at a positive time no later than its end,
/// and declares at most `MAX_SEQUENCE_CAPTURE_COUNT` captures.
pub proof fn valid_sequence_is_ordered(
    s: SequenceView,
    id_check: Option<Result<(), String>>,
    now_start: i64,
    now_end: i64,
)
    requires
        sequence_error(s, id_check, now_start, now_end) is None,
    ensures
        0 < s.captured_at_start <= s.captured_at_end,
        s.capture_count <= MAX_SEQUENCE_CAPTURE_COUNT,
{
}

/// An accepted capture names a sequence exactly when it gives its index in
/// that sequence.
pub proof fn valid_capture_links_sequence_fully(
    g: GeoCaptureView,
    id_check: Option<Result<(), String>>,
    now: i64,
)
    requires
        geo_capture_error(g, id_check, now) is None,
    ensures
        (g.sequence_uri is Some) <==> (g.sequence_index is Some),
        coordinates_error(g.lat, g.lon) is None,
{
    assert(sequence_link_error(g) is None);
}

/// An accepted incident lies at valid coordinates, expires after the clock
/// reading it was checked against, and has at most
/// `MAX_INCIDENT_ATTACHMENTS` attachments, each a Pubky URI.
pub proof fn valid_incident_is_current(i: IncidentView, id_check: Option<Result<(), String>>, now: i64)
    requires
        incident_error(i, id_check, now) is None,
    ensures
        coordinates_error(i.lat, i.lon) is None,
        i.expires_at matches Some(e) ==> e > now,
        i.attachments matches Some(a) ==> a.len() <= MAX_INCIDENT_ATTACHMENTS && forall|k: int|
            0 <= k < a.len() ==> pubky_uri_error(#[trigger] a[k]) is None,
{
    assert(incident_attachments_error(i.attachments) is None);
    if i.attachments is Some {
        let a = i.attachments.unwrap();
        assert forall|k: int| 0 <= k < a.len() implies pubky_uri_error(#[trigger] a[k]) is None by {
            lemma_no_failure(incident_attachment_checks(a), 0, a.len() as int, k);
        }
    }
}

/// An accepted route has between `MIN_WAYPOINTS` and `MAX_ROUTE_WAYPOINTS`
/// waypoints, each with valid coordinates, and every step points at one of
/// them.
pub proof fn valid_route_is_well_formed(r: RouteView, id_check: Option<Result<(), String>>)
    requires
        route_error(r, id_check) is None,
    ensures
        MIN_WAYPOINTS <= r.waypoints.len() <= MAX_ROUTE_WAYPOINTS,
        forall|i: int|
            0 <= i < r.waypoints.len() ==> coordinates_error(
                #[trigger] r.waypoints[i].lat,
                r.waypoints[i].lon,
            ) is None,
        r.steps matches Some(s) ==> forall|i: int|
            0 <= i < s.len() ==> #[trigger] s[i].waypoint_index < r.waypoints.len(),
{
    assert(waypoints_error(r.waypoints) is None);
    let n = r.waypoints.len() as int;
    assert forall|i: int| 0 <= i < n implies coordinates_error(
        #[trigger] r.waypoints[i].lat,
        r.waypoints[i].lon,
    ) is None by {
        lemma_no_failure(waypoint_checks(r.waypoints), 0, n, i);
    }
    if r.steps is Some {
        let s = r.steps.unwrap();
        assert(steps_error(r.steps, r.waypoints.len()) is None);
        assert forall|i: int| 0 <= i < s.len() implies #[trigger] s[i].waypoint_index
            < r.waypoints.len() by {
            lemma_no_failure(step_checks(s, r.waypoints.len()), 0, s.len() as int, i);
        }
    }
}

/// An accepted collection holds at most `MAX_COLLECTION_ITEMS` places, each
/// a valid OSM URL, no two of them equal.
pub proof fn valid_collection_items_distinct(
    c: CollectionView,
    id_check: Option<Result<(), String>>,
)
    requires
        collection_error(c, id_check) is None,
    ensures
        c.items.len() <= MAX_COLLECTION_ITEMS,
        forall|i: int| 0 <= i < c.items.len() ==> osm_url_error(#[trigger] c.items[i]) is None,
        forall|i: int, j: int| 0 <= i < j < c.items.len() ==> c.items[i] != c.items[j],
{
    let n = c.items.len() as int;
    assert(first_failure(item_checks(c.items), 0, n) is None);
    assert forall|i: int| 0 <= i < n implies osm_url_error(#[trigger] c.items[i]) is None by {
        lemma_no_failure(item_checks(c.items), 0, n, i);
        assert(item_error(c.items, i) is None);
    }
    assert forall|i: int, j: int| 0 <= i < j < n implies c.items[i] != c.items[j] by {
        lemma_no_failure(item_checks(c.items), 0, n, j);
        assert(item_error(c.items, j) is None);
        assert(c.items.subrange(0, j)[i] == c.items[i]);
    }
}

/// An accepted bounding box has non-NaN bounds within range, each minimum
/// at most its maximum.
pub proof fn valid_bbox_is_ordered(b: BoundingBox)
    requires
        bbox_error(b) is None,
    ensures
        float_in_range(b.min_lat, MINUS_NINETY_BITS, NINETY_BITS),
        float_in_range(b.max_lat, MINUS_NINETY_BITS, NINETY_BITS),
        !float_is_nan(b.min_lon) && !float_is_nan(b.max_lon),
        float_key(b.min_lat) <= float_key(b.max_lat),
        float_key(b.min_lon) <= float_key(b.max_lon),
{
}

/// A location tag's identifier depends on its place, category and label
/// only: neither the rating nor the time of tagging enters it.
pub proof fn location_tag_id_ignores_rating_and_time(a: LocationTagView, b: LocationTagView)
    requires
        a.place == b.place,
        a.category == b.category,
        a.label == b.label,
    ensures
        location_tag_id(a) == location_tag_id(b),
{
}

/// A location tag checked with its own identifier is judged as if no
/// identifier were given.
pub proof fn location_tag_own_id_accepted(t: LocationTagView)
    ensures
        location_tag_error(t, Some(location_tag_id(t))) == location_tag_error(t, None),
{
}

/// An accepted location tag has a positive place id, a category and a label
/// that pass the label rules, and a rating within 1..=10 when it has one.
pub proof fn valid_location_tag_is_well_formed(t: LocationTagView, id: Option<Seq<char>>)
    requires
        location_tag_error(t, id) is None,
    ensures
        t.place.osm_id > 0,
        label_error(t.category) is None,
        label_error(t.label) is None,
        t.rating matches Some(r) ==> 1 <= r && r <= 10,
        id matches Some(i) ==> i == location_tag_id(t),
{
}

/// Reading an object stored under a recognized path segment sanitizes and
/// validates it as its model does: an outcome `from_path` can report for a
/// decoded object is exactly one that the model's `sanitize` followed by
/// `validate(Some(id))` can report (their contracts give `sanitized_*` and
/// `*_error` of the sanitized model, for some identifier verdict and, where
/// the model reads it, some clock reading). A decoding error is passed on
/// unchanged by `from_path`'s own contract.
pub proof fn from_path_is_sanitize_then_validate(
    o: ObjectView,
    id: &str,
    outcome: Option<Seq<Piece>>,
)
    ensures
        is_validation_outcome(sanitized_object(o), id, outcome) <==> match o {
            ObjectView::Review(x) => exists|v: Option<Result<(), String>>|
                #[trigger] is_id_verdict(Some(id), v) && outcome == review_error(
                    sanitized_review(x),
                    v,
                ),
            ObjectView::Incident(x) => exists|v: Option<Result<(), String>>, now: i64|
                is_id_verdict(Some(id), v) && outcome == #[trigger] incident_error(
                    sanitized_incident(x),
                    v,
                    now,
                ),
            ObjectView::GeoCapture(x) => exists|v: Option<Result<(), String>>, now: i64|
                is_id_verdict(Some(id), v) && outcome == #[trigger] geo_capture_error(
                    sanitized_geo_capture(x),
                    v,
                    now,
                ),
            ObjectView::Route(x) => exists|v: Option<Result<(), String>>|
                #[trigger] is_id_verdict(Some(id), v) && outcome == route_error(
                    sanitized_route(x),
                    v,
                ),
            ObjectView::Sequence(x) => exists|v: Option<Result<(), String>>, a: i64, b: i64|
                is_id_verdict(Some(id), v) && outcome == #[trigger] sequence_error(
                    sanitized_sequence(x),
                    v,
                    a,
                    b,
                ),
        },
{
}

/// An accepted route has no negative measurement: its distance and its
/// elevation gain and loss, when given, are NaN or have a non-negative
/// encoding order key (they are not below 0.0), and its estimated duration
/// is not negative.
pub proof fn valid_route_has_no_negative_measure(r: RouteView, id_check: Option<Result<(), String>>)
    requires
        route_error(r, id_check) is None,
    ensures
        r.distance_m matches Some(d) ==> float_is_nan(d) || float_key(d) >= 0,
        r.elevation_gain_m matches Some(g) ==> float_is_nan(g) || float_key(g) >= 0,
        r.elevation_loss_m matches Some(l) ==> float_is_nan(l) || float_key(l) >= 0,
        r.estimated_duration_s matches Some(t) ==> t >= 0,
{
}

/// The field of view of a capture that is valid without one is accepted
/// exactly when it is not NaN and lies within 1.0..=360.0 (the encodings
/// 0x3ff0_0000_0000_0000 and 0x4076_8000_0000_0000, whose order keys are
/// the encodings themselves).
pub proof fn fov_accepted_iff_within_one_and_360(
    g: GeoCaptureView,
    id_check: Option<Result<(), String>>,
    now: i64,
    fov: u64,
)
    requires
        g.fov is None,
        geo_capture_error(g, id_check, now) is None,
    ensures
        geo_capture_error(GeoCaptureView { fov: Some(fov), ..g }, id_check, now) is None <==> (
        !float_is_nan(fov) && 0x3ff0_0000_0000_0000 <= float_key(fov) <= 0x4076_8000_0000_0000),
{
    let h = GeoCaptureView { fov: Some(fov), ..g };
    assert(orientation_error(g) is None);
    if !float_is_nan(fov) && 0x3ff0_0000_0000_0000 <= float_key(fov) <= 0x4076_8000_0000_0000 {
        assert(fov_error(fov) is None);
        assert(orientation_error(h) is None);
        assert(sequence_link_error(h) == sequence_link_error(g));
    } else {
        assert(fov_error(fov) is Some);
    }
}

/// A bounding box is accepted exactly when no bound is NaN, both latitudes
/// lie within -90.0..=90.0 and both longitudes within -180.0..=180.0 (order
/// keys of the encodings of 90.0 and 180.0, 0x4056_8000_0000_0000 and
/// 0x4066_8000_0000_0000, and their negations), and each minimum is at most
/// its maximum.
pub proof fn bbox_accepted_iff_in_range_and_ordered(b: BoundingBox)
    ensures
        bbox_error(b) is None <==> {
            &&& !float_is_nan(b.min_lat) && !float_is_nan(b.max_lat)
            &&& !float_is_nan(b.min_lon) && !float_is_nan(b.max_lon)
            &&& -0x4056_8000_0000_0000 <= float_key(b.min_lat) <= 0x4056_8000_0000_0000
            &&& -0x4056_8000_0000_0000 <= float_key(b.max_lat) <= 0x4056_8000_0000_0000
            &&& -0x4066_8000_0000_0000 <= float_key(b.min_lon) <= 0x4066_8000_0000_0000
            &&& -0x4066_8000_0000_0000 <= float_key(b.max_lon) <= 0x4066_8000_0000_0000
            &&& float_key(b.min_lat) <= float_key(b.max_lat)
            &&& float_key(b.min_lon) <= float_key(b.max_lon)
        },
{
}

/// A location tag's identifier is the Pubky tag hash of the canonical place
/// with the label `{category}:{label}`; the hashed text, `{uri}:{label}`,
/// is then exactly the tag's id data `{place}:{category}:{label}`.
pub proof fn location_tag_id_hashes_id_data(t: LocationTagView)
    ensures
        location_tag_id(t) == pubky_tag_id(canonical_text(t.place), t.category + ":"@ + t.label),
        canonical_text(t.place) + ":"@ + (t.category + ":"@ + t.label) == id_data(t),
{
    assert(canonical_text(t.place) + ":"@ + (t.category + ":"@ + t.label) =~= id_data(t));
}

/// Two location tags on the same place whose categories hold no `:` (as
/// the label rules demand) and that differ in category or label hash
/// different texts: the category is part of what the identifier hashes.
pub proof fn location_tag_hash_inputs_differ(a: LocationTagView, b: LocationTagView)
    requires
        forall|i: int| 0 <= i < a.category.len() ==> a.category[i] != ':',
        forall|i: int| 0 <= i < b.category.len() ==> b.category[i] != ':',
        a.category != b.category || a.label != b.label,
    ensures
        a.category + ":"@ + a.label != b.category + ":"@ + b.label,
{
    let x = a.category + ":"@ + a.label;
    let y = b.category + ":"@ + b.label;
    if x == y {
        reveal_strlit(":");
        let n: int = a.category.len() as int;
        let m: int = b.category.len() as int;
        assert(x[n as int] == ':');
        assert(y[m as int] == ':');
        if n < m {
            assert(y[n as int] == b.category[n as int]);
            assert(false);
        } else if m < n {
            assert(x[m as int] == a.category[m as int]);
            assert(false);
        } else {
            assert(a.category =~= x.subrange(0, n as int));
            assert(b.category =~= y.subrange(0, n as int));
            assert(a.label =~= x.subrange(n + 1 as int, x.len() as int));
            assert(b.label =~= y.subrange(n + 1 as int, y.len() as int));
        }
    }
}

proof fn lemma_trim_start_idempotent(s: Seq<char>)
    ensures
        trim_start(trim_start(s)) == trim_start(s),
        trim_start(s).len() > 0 ==> !is_white_space(trim_start(s)[0]),
    decreases s.len(),
{
    if s.len() > 0 && is_white_space(s[0]) {
        lemma_trim_start_idempotent(s.drop_first());
    }
}

proof fn lemma_trim_end_idempotent(s: Seq<char>)
    ensures
        trim_end(trim_end(s)) == trim_end(s),
    decreases s.len(),
{
    if s.len() > 0 && is_white_space(s.last()) {
        lemma_trim_end_idempotent(s.drop_last());
    }
}

proof fn lemma_trim_end_keeps_start(s: Seq<char>)
    requires
        s.len() > 0 ==> !is_white_space(s[0]),
    ensures
        trim_start(trim_end(s)) == trim_end(s),
    decreases s.len(),
{
    if s.len() > 0 && is_white_space(s.last()) {
        if s.len() > 1 {
            assert(s.drop_last()[0] == s[0]);
        }
        lemma_trim_end_keeps_start(s.drop_last());
    }
}

/// Trimming twice is trimming once.
pub proof fn trim_is_idempotent(s: Seq<char>)
    ensures
        trimmed(trimmed(s)) == trimmed(s),
{
    let a = trim_start(s);
    lemma_trim_start_idempotent(s);
    lemma_trim_end_keeps_start(a);
    lemma_trim_end_idempotent(a);
}

/// Sanitizing a sanitized sequence changes nothing.
pub proof fn sequence_sanitize_is_idempotent(s: SequenceView)
    ensures
        sanitized_sequence(sanitized_sequence(s)) == sanitized_sequence(s),
{
    if let Some(n) = s.name {
        trim_is_idempotent(n);
    }
    if let Some(d) = s.description {
        trim_is_idempotent(d);
    }
    if let Some(d) = s.device {
        trim_is_idempotent(d);
    }
}

} // verus!
