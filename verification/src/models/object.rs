//! One enum over the stored MapKy objects, and the choice of model by the
//! path segment a blob is stored under.
use vstd::prelude::*;

use crate::checks::is_id_verdict;
use crate::message::{text, ErrorMessage, Piece};
use crate::models::geo_capture::{
    geo_capture_error, sanitized_geo_capture, GeoCaptureView, MapkyAppGeoCapture,
};
use crate::models::incident::{incident_error, sanitized_incident, IncidentView, MapkyAppIncident};
use crate::models::review::{review_error, sanitized_review, MapkyAppReview, ReviewView};
use crate::models::route::{route_error, sanitized_route, MapkyAppRoute, RouteView};
use crate::models::sequence::{
    sanitized_sequence, sequence_error, MapkyAppSequence, SequenceView,
};
use crate::text::str_equal;

verus! {

/// A MapKy object of any of the stored kinds. Posts are stored as
/// `pubky_app_specs::PubkyAppPost` and are not represented here.
#[derive(Clone, Debug)]
pub enum MapkyAppObject {
    Review(MapkyAppReview),
    Incident(MapkyAppIncident),
    GeoCapture(MapkyAppGeoCapture),
    Route(MapkyAppRoute),
    Sequence(MapkyAppSequence),
}

/// An object as the contracts see it.
pub enum ObjectView {
    Review(ReviewView),
    Incident(IncidentView),
    GeoCapture(GeoCaptureView),
    Route(RouteView),
    Sequence(SequenceView),
}

impl View for MapkyAppObject {
    type V = ObjectView;

    open spec fn view(&self) -> ObjectView {
        match self {
            MapkyAppObject::Review(x) => ObjectView::Review(x@),
            MapkyAppObject::Incident(x) => ObjectView::Incident(x@),
            MapkyAppObject::GeoCapture(x) => ObjectView::GeoCapture(x@),
            MapkyAppObject::Route(x) => ObjectView::Route(x@),
            MapkyAppObject::Sequence(x) => ObjectView::Sequence(x@),
        }
    }
}

/// The kinds of stored objects.
#[derive(Clone, Copy, Debug, PartialEq, Eq, Structural)]
pub enum ObjectKind {
    Review,
    Incident,
    GeoCapture,
    Route,
    Sequence,
}

/// The kind stored under a path segment.
pub open spec fn segment_kind(segment: Seq<char>) -> Option<ObjectKind> {
    if segment == "reviews"@ {
        Some(ObjectKind::Review)
    } else if segment == "incidents"@ {
        Some(ObjectKind::Incident)
    } else if segment == "geo_captures"@ {
        Some(ObjectKind::GeoCapture)
    } else if segment == "routes"@ {
        Some(ObjectKind::Route)
    } else if segment == "sequences"@ {
        Some(ObjectKind::Sequence)
    } else {
        None
    }
}

/// The kind of an object.
pub open spec fn kind_of(o: ObjectView) -> ObjectKind {
    match o {
        ObjectView::Review(_) => ObjectKind::Review,
        ObjectView::Incident(_) => ObjectKind::Incident,
        ObjectView::GeoCapture(_) => ObjectKind::GeoCapture,
        ObjectView::Route(_) => ObjectKind::Route,
        ObjectView::Sequence(_) => ObjectKind::Sequence,
    }
}

/// An object after `sanitize`.
pub open spec fn sanitized_object(o: ObjectView) -> ObjectView {
    match o {
        ObjectView::Review(x) => ObjectView::Review(sanitized_review(x)),
        ObjectView::Incident(x) => ObjectView::Incident(sanitized_incident(x)),
        ObjectView::GeoCapture(x) => ObjectView::GeoCapture(sanitized_geo_capture(x)),
        ObjectView::Route(x) => ObjectView::Route(sanitized_route(x)),
        ObjectView::Sequence(x) => ObjectView::Sequence(sanitized_sequence(x)),
    }
}

/// `outcome` is what validating `o` with the identifier `id` can report,
/// for some outcome of the identifier check and some clock readings.
pub open spec fn is_validation_outcome(o: ObjectView, id: &str, outcome: Option<Seq<Piece>>) -> bool {
    match o {
        ObjectView::Review(x) => exists|v: Option<Result<(), String>>|
            #[trigger] is_id_verdict(Some(id), v) && outcome == review_error(x, v),
        ObjectView::Incident(x) => exists|v: Option<Result<(), String>>, now: i64|
            is_id_verdict(Some(id), v) && outcome == #[trigger] crate::models::incident::incident_error(
                x,
                v,
                now,
            ),
        ObjectView::GeoCapture(x) => exists|v: Option<Result<(), String>>, now: i64|
            is_id_verdict(Some(id), v) && outcome == #[trigger] geo_capture_error(x, v, now),
        ObjectView::Route(x) => exists|v: Option<Result<(), String>>|
            #[trigger] is_id_verdict(Some(id), v) && outcome == route_error(x, v),
        ObjectView::Sequence(x) => exists|v: Option<Result<(), String>>, a: i64, b: i64|
            is_id_verdict(Some(id), v) && outcome == #[trigger] sequence_error(x, v, a, b),
    }
}

/// The view of an outcome.
pub open spec fn object_outcome(r: Result<MapkyAppObject, ErrorMessage>) -> Option<Seq<Piece>> {
    match r {
        Ok(_) => None,
        Err(e) => Some(e@),
    }
}

/// The message for a path segment that names no MapKy resource.
pub open spec fn unrecognized_resource(segment: Seq<char>) -> Seq<Piece> {
    text("Unrecognized mapky.app resource: "@ + segment)
}

/// The kind of object stored under a path segment such as `reviews`.
pub fn kind_of_segment(segment: &str) -> (k: Option<ObjectKind>)
    ensures
        k == segment_kind(segment@),
{
    if str_equal(segment, "reviews") {
        Some(ObjectKind::Review)
    } else if str_equal(segment, "incidents") {
        Some(ObjectKind::Incident)
    } else if str_equal(segment, "geo_captures") {
        Some(ObjectKind::GeoCapture)
    } else if str_equal(segment, "routes") {
        Some(ObjectKind::Route)
    } else if str_equal(segment, "sequences") {
        Some(ObjectKind::Sequence)
    } else {
        None
    }
}

impl MapkyAppObject {
    /// Turns a blob stored under `path_segment` (such as `reviews` or
    /// `incidents`) into an object. `decoded` is the blob read as the model
    /// that the segment names, or the decoding error; the object is then
    /// sanitized and validated with the identifier `id`.
    pub fn from_path(
        path_segment: &str,
        decoded: Result<MapkyAppObject, String>,
        id: &str,
    ) -> (r: Result<MapkyAppObject, ErrorMessage>)
        requires
            segment_kind(path_segment@) is Some ==> (decoded matches Ok(o) ==> Some(kind_of(o@))
                == segment_kind(path_segment@)),
        ensures
            segment_kind(path_segment@) is None ==> object_outcome(r) == Some(
                unrecognized_resource(path_segment@),
            ),
            segment_kind(path_segment@) is Some ==> match decoded {
                Err(e) => object_outcome(r) == Some(text(e@)),
                Ok(o) => is_validation_outcome(sanitized_object(o@), id, object_outcome(r)) && (
                r matches Ok(x) ==> x@ == sanitized_object(o@)),
            },
    {
        let kind = kind_of_segment(path_segment);
        if kind.is_none() {
            let mut t = String::from_str("Unrecognized mapky.app resource: ");
            t.append(path_segment);
            return Err(ErrorMessage::from_text(t));
        }
        let obj = match decoded {
            Err(e) => {
                return Err(ErrorMessage::from_text(e));
            },
            Ok(o) => o,
        };
        match obj {
            MapkyAppObject::Review(x) => {
                let x = x.sanitize();
                match x.validate(Some(id)) {
                    Ok(()) => Ok(MapkyAppObject::Review(x)),
                    Err(e) => Err(e),
                }
            },
            MapkyAppObject::Incident(x) => {
                let x = x.sanitize();
                match x.validate(Some(id)) {
                    Ok(()) => Ok(MapkyAppObject::Incident(x)),
                    Err(e) => Err(e),
                }
            },
            MapkyAppObject::GeoCapture(x) => {
                let x = x.sanitize();
                match x.validate(Some(id)) {
                    Ok(()) => Ok(MapkyAppObject::GeoCapture(x)),
                    Err(e) => Err(e),
                }
            },
            MapkyAppObject::Route(x) => {
                let x = x.sanitize();
                match x.validate(Some(id)) {
                    Ok(()) => Ok(MapkyAppObject::Route(x)),
                    Err(e) => Err(e),
                }
            },
            MapkyAppObject::Sequence(x) => {
                let x = x.sanitize();
                match x.validate(Some(id)) {
                    Ok(()) => Ok(MapkyAppObject::Sequence(x)),
                    Err(e) => Err(e),
                }
            },
        }
    }
}

} // verus!
