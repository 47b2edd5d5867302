//! Crowdsourced incident reports anchored at a coordinate.
//!
//! URI: `/pub/mapky.app/incidents/:incident_id`
use vstd::prelude::*;

use crate::checks::{
    check_id, first_failure, id_error, is_id_verdict, numbered_message,
    opt_sanitized_urls, opt_text, opt_texts, opt_trimmed, sanitize_opt_urls, texts, trim_opt,
};
use crate::common::timestamp;
use crate::constants::{
    MAPKY_PATH, MAX_ATTACHMENT_URL_LENGTH, MAX_INCIDENT_ATTACHMENTS,
    MAX_INCIDENT_DESCRIPTION_LENGTH, PUBLIC_PATH,
};
use crate::ids::{create_timestamp_id, is_timestamp_id_shape};
use crate::message::{failure, text, ErrorMessage, Piece};
use crate::text::{char_count, decimal};
use crate::validation::{
    coordinates_error, heading_error, pubky_uri_error, validate_coordinates, validate_heading,
    validate_pubky_uri,
};

verus! {

/// Kind of incident.
#[derive(Clone, Copy, Debug, PartialEq, Eq, Structural)]
pub enum IncidentType {
    Accident,
    Hazard,
    RoadClosure,
    Police,
    Flooding,
    IceSnow,
    PoorVisibility,
    Danger,
    Other,
}

/// Severity of an incident.
#[derive(Clone, Copy, Debug, PartialEq, Eq, Structural)]
pub enum IncidentSeverity {
    Low,
    Medium,
    High,
}

/// A Waze-style incident report. Coordinates and heading are binary64 values
/// carried by their IEEE-754 bit patterns.
#[derive(Clone, Debug)]
pub struct MapkyAppIncident {
    pub incident_type: IncidentType,
    pub severity: IncidentSeverity,
    pub lat: u64,
    pub lon: u64,
    pub heading: Option<u64>,
    pub description: Option<String>,
    /// `pubky://` URIs of attached files.
    pub attachments: Option<Vec<String>>,
    /// Expiry, UNIX microseconds.
    pub expires_at: Option<i64>,
}

/// An incident as the contracts see it.
pub struct IncidentView {
    pub incident_type: IncidentType,
    pub severity: IncidentSeverity,
    pub lat: u64,
    pub lon: u64,
    pub heading: Option<u64>,
    pub description: Option<Seq<char>>,
    pub attachments: Option<Seq<Seq<char>>>,
    pub expires_at: Option<i64>,
}

impl View for MapkyAppIncident {
    type V = IncidentView;

    open spec fn view(&self) -> IncidentView {
        IncidentView {
            incident_type: self.incident_type,
            severity: self.severity,
            lat: self.lat,
            lon: self.lon,
            heading: self.heading,
            description: opt_text(self.description),
            attachments: opt_texts(self.attachments),
            expires_at: self.expires_at,
        }
    }
}

/// What `sanitize` makes of an incident: the description trimmed, the
/// attachment URLs normalized.
pub open spec fn sanitized_incident(i: IncidentView) -> IncidentView {
    IncidentView {
        description: opt_trimmed(i.description),
        attachments: opt_sanitized_urls(i.attachments),
        ..i
    }
}

/// The failure of the attachment at position `i`: at most 300 characters,
/// then a valid Pubky URI.
pub open spec fn incident_attachment_error(url: Seq<char>, i: int) -> Option<Seq<Piece>> {
    if url.len() > MAX_ATTACHMENT_URL_LENGTH {
        Some(
            text(
                "Validation Error: Attachment URL at index "@ + decimal(i as nat)
                    + " exceeds maximum length"@,
            ),
        )
    } else {
        match pubky_uri_error(url) {
            Some(e) => Some(
                text("Validation Error: Attachment at index "@ + decimal(i as nat) + ": "@) + e,
            ),
            None => None,
        }
    }
}

/// The attachment checks of a list of URLs.
pub open spec fn incident_attachment_checks(a: Seq<Seq<char>>) -> spec_fn(int) -> Option<
    Seq<Piece>,
> {
    |i: int| incident_attachment_error(a[i], i)
}

/// The failure of an optional attachment list: at most 5 entries, then the
/// first entry that fails.
pub open spec fn incident_attachments_error(attachments: Option<Seq<Seq<char>>>) -> Option<
    Seq<Piece>,
> {
    match attachments {
        None => None,
        Some(a) => if a.len() > MAX_INCIDENT_ATTACHMENTS {
            Some(text("Validation Error: Too many attachments (max: 5)"@))
        } else {
            first_failure(incident_attachment_checks(a), 0, a.len() as int)
        },
    }
}

/// The first rule an incident breaks, against the clock reading `now`: the
/// identifier (when checked), the coordinates, the heading, the description
/// has at most 500 characters, the expiry lies after `now`, the attachments.
pub open spec fn incident_error(
    i: IncidentView,
    id_check: Option<Result<(), String>>,
    now: i64,
) -> Option<Seq<Piece>> {
    if id_error(id_check) is Some {
        id_error(id_check)
    } else if coordinates_error(i.lat, i.lon) is Some {
        coordinates_error(i.lat, i.lon)
    } else if i.heading matches Some(h) && heading_error(h) is Some {
        heading_error(i.heading.unwrap())
    } else if i.description matches Some(d) && d.len() > MAX_INCIDENT_DESCRIPTION_LENGTH {
        Some(text("Validation Error: Description exceeds maximum length of 500 characters"@))
    } else if i.expires_at matches Some(e) && e <= now {
        Some(text("Validation Error: expires_at must be in the future"@))
    } else {
        incident_attachments_error(i.attachments)
    }
}

fn validate_incident_attachment(url: &str, i: usize) -> (r: Result<(), ErrorMessage>)
    ensures
        failure(r) == incident_attachment_error(url@, i as int),
{
    if char_count(url) > MAX_ATTACHMENT_URL_LENGTH {
        return Err(
            numbered_message(
                "Validation Error: Attachment URL at index ",
                i as u64,
                " exceeds maximum length",
            ),
        );
    }
    match validate_pubky_uri(url) {
        Ok(()) => Ok(()),
        Err(e) => {
            let mut m = numbered_message("Validation Error: Attachment at index ", i as u64, ": ");
            m.append(e);
            Err(m)
        },
    }
}

fn validate_incident_attachments(a: &Vec<String>) -> (r: Result<(), ErrorMessage>)
    ensures
        failure(r) == incident_attachments_error(Some(texts(*a))),
{
    let ghost v = texts(*a);
    let ghost f = incident_attachment_checks(v);
    if a.len() > MAX_INCIDENT_ATTACHMENTS {
        return Err(ErrorMessage::from_str("Validation Error: Too many attachments (max: 5)"));
    }
    let n: usize = a.len();
    let mut i: usize = 0;
    assert(v.len() == n);
    while i < n
        invariant
            n == a@.len(),
            n <= MAX_INCIDENT_ATTACHMENTS,
            v.len() == n,
            v == texts(*a),
            f == incident_attachment_checks(v),
            i <= n,
            first_failure(f, 0, n as int) == first_failure(f, i as int, n as int),
        decreases n - i,
    {
        let r = validate_incident_attachment(a[i].as_str(), i);
        assert(v[i as int] == a@[i as int]@);
        assert(f(i as int) == incident_attachment_error(v[i as int], i as int));
        if r.is_err() {
            assert(first_failure(f, i as int, n as int) == f(i as int));
            return r;
        }
        i = i + 1;
    }
    Ok(())
}

impl MapkyAppIncident {
    /// An incident of the given kind, severity and coordinates, with no
    /// optional field set (not sanitized, as there is nothing to sanitize).
    pub fn new(incident_type: IncidentType, severity: IncidentSeverity, lat: u64, lon: u64) -> (r:
        MapkyAppIncident)
        ensures
            r@ == (IncidentView {
                incident_type,
                severity,
                lat,
                lon,
                heading: None,
                description: None,
                attachments: None,
                expires_at: None,
            }),
    {
        MapkyAppIncident {
            incident_type,
            severity,
            lat,
            lon,
            heading: None,
            description: None,
            attachments: None,
            expires_at: None,
        }
    }

    /// A fresh timestamp identifier.
    pub fn create_id(&self) -> (id: String)
        ensures
            is_timestamp_id_shape(id@),
    {
        create_timestamp_id()
    }

    /// The path of the incident with identifier `id`.
    pub fn create_path(id: &str) -> (p: String)
        ensures
            p@ == PUBLIC_PATH@ + MAPKY_PATH@ + "incidents/"@ + id@,
    {
        let mut p = String::from_str(PUBLIC_PATH);
        p.append(MAPKY_PATH);
        p.append("incidents/");
        p.append(id);
        p
    }

    /// Trims the description and normalizes the attachment URLs.
    pub fn sanitize(self) -> (r: MapkyAppIncident)
        ensures
            r@ == sanitized_incident(self@),
    {
        let description = trim_opt(self.description);
        let attachments = sanitize_opt_urls(self.attachments);
        MapkyAppIncident {
            incident_type: self.incident_type,
            severity: self.severity,
            lat: self.lat,
            lon: self.lon,
            heading: self.heading,
            description,
            attachments,
            expires_at: self.expires_at,
        }
    }

    /// Checks the incident, given the outcome of the identifier check and
    /// the clock reading `now` (UNIX microseconds).
    pub fn validate_with(&self, id_check: Option<Result<(), String>>, now: i64) -> (r: Result<
        (),
        ErrorMessage,
    >)
        ensures
            failure(r) == incident_error(self@, id_check, now),
    {
        if let Some(Err(e)) = id_check {
            return Err(ErrorMessage::from_text(e));
        }
        validate_coordinates(self.lat, self.lon)?;
        if let Some(h) = self.heading {
            validate_heading(h)?;
        }
        if let Some(d) = &self.description {
            if char_count(d.as_str()) > MAX_INCIDENT_DESCRIPTION_LENGTH {
                return Err(
                    ErrorMessage::from_str(
                        "Validation Error: Description exceeds maximum length of 500 characters",
                    ),
                );
            }
        }
        if let Some(e) = self.expires_at {
            if e <= now {
                return Err(
                    ErrorMessage::from_str("Validation Error: expires_at must be in the future"),
                );
            }
        }
        match &self.attachments {
            None => Ok(()),
            Some(a) => validate_incident_attachments(a),
        }
    }

    /// Checks the incident against the clock, and the identifier `id` when
    /// given.
    pub fn validate(&self, id: Option<&str>) -> (r: Result<(), ErrorMessage>)
        ensures
            exists|v: Option<Result<(), String>>, now: i64|
                is_id_verdict(id, v) && failure(r) == #[trigger] incident_error(self@, v, now),
    {
        let v = check_id(id);
        // The clock is read only when there is an expiry to compare.
        let now = if self.expires_at.is_some() {
            timestamp()
        } else {
            0
        };
        self.validate_with(v, now)
    }
}

} // verus!
