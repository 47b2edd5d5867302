//! Geo-located media captures: street-level photos, panoramas, video, 3D
//! models, point clouds, audio.
//!
//! URI: `/pub/mapky.app/geo_captures/:capture_id`
use vstd::prelude::*;

use crate::checks::{
    check_id, id_error, is_id_verdict, opt_sanitized_url, opt_text, opt_trimmed,
    sanitize_opt_url, trim_opt,
};
use crate::common::{sanitize_url, sanitized_url, timestamp};
use crate::constants::{MAPKY_PATH, MAX_CAPTION_LENGTH, PUBLIC_PATH};
use crate::float::{
    float_in_range, in_range, MINUS_NINETY_BITS, NINETY_BITS, ONE_BITS, THREE_SIXTY_BITS,
};
use crate::ids::{create_timestamp_id, is_timestamp_id_shape};
use crate::message::{failure, text, ErrorMessage, Piece};
use crate::text::char_count;
use crate::validation::{
    check_timestamp_microseconds, coordinates_error, heading_error, number_message,
    pubky_uri_error, sequence_uri_error, timestamp_error, validate_coordinates, validate_heading,
    validate_pubky_uri, validate_sequence_uri,
};

verus! {

/// Rendering hint for geo-captured media.
#[derive(Clone, Copy, Debug, PartialEq, Eq, Structural)]
pub enum GeoCaptureKind {
    Photo,
    Panorama,
    Video,
    Video360,
    Model3d,
    PointCloud,
    Audio,
    Other,
}

/// A geo-located media capture. Coordinates and angles are binary64 values
/// carried by their IEEE-754 bit patterns.
#[derive(Clone, Debug)]
pub struct MapkyAppGeoCapture {
    /// `pubky://` URI of the media file.
    pub file_uri: String,
    pub kind: GeoCaptureKind,
    pub lat: u64,
    pub lon: u64,
    pub ele: Option<u64>,
    pub heading: Option<u64>,
    pub pitch: Option<u64>,
    pub fov: Option<u64>,
    pub caption: Option<String>,
    /// URI of the sequence the capture belongs to; comes with `sequence_index`.
    pub sequence_uri: Option<String>,
    pub sequence_index: Option<u32>,
    /// When the media was captured, UNIX microseconds.
    pub captured_at: Option<i64>,
}

/// A geo-capture as the contracts see it.
pub struct GeoCaptureView {
    pub file_uri: Seq<char>,
    pub kind: GeoCaptureKind,
    pub lat: u64,
    pub lon: u64,
    pub ele: Option<u64>,
    pub heading: Option<u64>,
    pub pitch: Option<u64>,
    pub fov: Option<u64>,
    pub caption: Option<Seq<char>>,
    pub sequence_uri: Option<Seq<char>>,
    pub sequence_index: Option<u32>,
    pub captured_at: Option<i64>,
}

impl Default for GeoCaptureKind {
    /// Photos are the default kind.
    fn default() -> (k: GeoCaptureKind)
        ensures
            k == GeoCaptureKind::Photo,
    {
        GeoCaptureKind::Photo
    }
}

impl Default for MapkyAppGeoCapture {
    /// An empty file URI, a photo at latitude and longitude 0.0, no optional
    /// field set.
    fn default() -> (g: MapkyAppGeoCapture)
        ensures
            g@ == (GeoCaptureView {
                file_uri: Seq::empty(),
                kind: GeoCaptureKind::Photo,
                lat: 0,
                lon: 0,
                ele: None,
                heading: None,
                pitch: None,
                fov: None,
                caption: None,
                sequence_uri: None,
                sequence_index: None,
                captured_at: None,
            }),
    {
        MapkyAppGeoCapture {
            file_uri: String::new(),
            kind: GeoCaptureKind::Photo,
            lat: 0,
            lon: 0,
            ele: None,
            heading: None,
            pitch: None,
            fov: None,
            caption: None,
            sequence_uri: None,
            sequence_index: None,
            captured_at: None,
        }
    }
}

impl View for MapkyAppGeoCapture {
    type V = GeoCaptureView;

    open spec fn view(&self) -> GeoCaptureView {
        GeoCaptureView {
            file_uri: self.file_uri@,
            kind: self.kind,
            lat: self.lat,
            lon: self.lon,
            ele: self.ele,
            heading: self.heading,
            pitch: self.pitch,
            fov: self.fov,
            caption: opt_text(self.caption),
            sequence_uri: opt_text(self.sequence_uri),
            sequence_index: self.sequence_index,
            captured_at: self.captured_at,
        }
    }
}

/// What `sanitize` makes of a capture: the file and sequence URIs
/// normalized, the caption trimmed.
pub open spec fn sanitized_geo_capture(g: GeoCaptureView) -> GeoCaptureView {
    GeoCaptureView {
        file_uri: sanitized_url(g.file_uri),
        caption: opt_trimmed(g.caption),
        sequence_uri: opt_sanitized_url(g.sequence_uri),
        ..g
    }
}

/// The pitch must lie within -90..90.
pub open spec fn pitch_error(pitch: u64) -> Option<Seq<Piece>> {
    if !float_in_range(pitch, MINUS_NINETY_BITS, NINETY_BITS) {
        Some(
            seq![
                Piece::Text("Validation Error: Pitch "@),
                Piece::Float(pitch),
                Piece::Text(" out of range (-90 to 90)"@),
            ],
        )
    } else {
        None
    }
}

/// The field of view must lie within 1..360.
pub open spec fn fov_error(fov: u64) -> Option<Seq<Piece>> {
    if !float_in_range(fov, ONE_BITS, THREE_SIXTY_BITS) {
        Some(
            seq![
                Piece::Text("Validation Error: FOV "@),
                Piece::Float(fov),
                Piece::Text(" out of range (1 to 360)"@),
            ],
        )
    } else {
        None
    }
}

/// The orientation checks: heading, pitch, field of view.
pub open spec fn orientation_error(g: GeoCaptureView) -> Option<Seq<Piece>> {
    if g.heading matches Some(h) && heading_error(h) is Some {
        heading_error(g.heading.unwrap())
    } else if g.pitch matches Some(p) && pitch_error(p) is Some {
        pitch_error(g.pitch.unwrap())
    } else if g.fov matches Some(f) && fov_error(f) is Some {
        fov_error(g.fov.unwrap())
    } else {
        None
    }
}

/// The sequence checks: `sequence_uri` and `sequence_index` come together,
/// and the URI names a sequence.
pub open spec fn sequence_link_error(g: GeoCaptureView) -> Option<Seq<Piece>> {
    if (g.sequence_uri is Some) != (g.sequence_index is Some) {
        Some(
            text(
                "Validation Error: sequence_uri and sequence_index must both be present or both absent"@,
            ),
        )
    } else if g.sequence_uri matches Some(u) && sequence_uri_error(u) is Some {
        Some(
            text("Validation Error: Invalid sequence URI: "@) + sequence_uri_error(
                g.sequence_uri.unwrap(),
            ).unwrap(),
        )
    } else {
        None
    }
}

/// The first rule a capture breaks, against the clock reading `now`: the
/// identifier (when checked), the file URI is a Pubky URI, the coordinates,
/// the orientation, the caption has at most 500 characters, the sequence
/// link, the capture time.
pub open spec fn geo_capture_error(
    g: GeoCaptureView,
    id_check: Option<Result<(), String>>,
    now: i64,
) -> Option<Seq<Piece>> {
    if id_error(id_check) is Some {
        id_error(id_check)
    } else if pubky_uri_error(g.file_uri) is Some {
        pubky_uri_error(g.file_uri)
    } else if coordinates_error(g.lat, g.lon) is Some {
        coordinates_error(g.lat, g.lon)
    } else if orientation_error(g) is Some {
        orientation_error(g)
    } else if g.caption matches Some(c) && c.len() > MAX_CAPTION_LENGTH {
        Some(text("Validation Error: Caption exceeds maximum length of 500 characters"@))
    } else if sequence_link_error(g) is Some {
        sequence_link_error(g)
    } else {
        match g.captured_at {
            Some(t) => timestamp_error(t, "captured_at"@, now),
            None => None,
        }
    }
}

impl MapkyAppGeoCapture {
    /// A capture of the given file, kind and coordinates, with no optional
    /// field set, sanitized.
    pub fn new(file_uri: String, kind: GeoCaptureKind, lat: u64, lon: u64) -> (r:
        MapkyAppGeoCapture)
        ensures
            r@ == sanitized_geo_capture(
                GeoCaptureView {
                    file_uri: file_uri@,
                    kind,
                    lat,
                    lon,
                    ele: None,
                    heading: None,
                    pitch: None,
                    fov: None,
                    caption: None,
                    sequence_uri: None,
                    sequence_index: None,
                    captured_at: None,
                },
            ),
    {
        let capture = MapkyAppGeoCapture {
            file_uri,
            kind,
            lat,
            lon,
            ele: None,
            heading: None,
            pitch: None,
            fov: None,
            caption: None,
            sequence_uri: None,
            sequence_index: None,
            captured_at: None,
        };
        capture.sanitize()
    }

    /// A fresh timestamp identifier.
    pub fn create_id(&self) -> (id: String)
        ensures
            is_timestamp_id_shape(id@),
    {
        create_timestamp_id()
    }

    /// The path of the capture with identifier `id`.
    pub fn create_path(id: &str) -> (p: String)
        ensures
            p@ == PUBLIC_PATH@ + MAPKY_PATH@ + "geo_captures/"@ + id@,
    {
        let mut p = String::from_str(PUBLIC_PATH);
        p.append(MAPKY_PATH);
        p.append("geo_captures/");
        p.append(id);
        p
    }

    /// Normalizes the file and sequence URIs and trims the caption.
    pub fn sanitize(self) -> (r: MapkyAppGeoCapture)
        ensures
            r@ == sanitized_geo_capture(self@),
    {
        let file_uri = sanitize_url(self.file_uri.as_str());
        let caption = trim_opt(self.caption);
        let sequence_uri = sanitize_opt_url(self.sequence_uri);
        MapkyAppGeoCapture {
            file_uri,
            kind: self.kind,
            lat: self.lat,
            lon: self.lon,
            ele: self.ele,
            heading: self.heading,
            pitch: self.pitch,
            fov: self.fov,
            caption,
            sequence_uri,
            sequence_index: self.sequence_index,
            captured_at: self.captured_at,
        }
    }

    fn validate_orientation(&self) -> (r: Result<(), ErrorMessage>)
        ensures
            failure(r) == orientation_error(self@),
    {
        if let Some(h) = self.heading {
            validate_heading(h)?;
        }
        if let Some(p) = self.pitch {
            if !in_range(p, MINUS_NINETY_BITS, NINETY_BITS) {
                return Err(number_message("Validation Error: Pitch ", p, " out of range (-90 to 90)"));
            }
        }
        if let Some(f) = self.fov {
            if !in_range(f, ONE_BITS, THREE_SIXTY_BITS) {
                return Err(number_message("Validation Error: FOV ", f, " out of range (1 to 360)"));
            }
        }
        Ok(())
    }

    fn validate_sequence_link(&self) -> (r: Result<(), ErrorMessage>)
        ensures
            failure(r) == sequence_link_error(self@),
    {
        if self.sequence_uri.is_some() != self.sequence_index.is_some() {
            return Err(
                ErrorMessage::from_str(
                    "Validation Error: sequence_uri and sequence_index must both be present or both absent",
                ),
            );
        }
        if let Some(u) = &self.sequence_uri {
            if let Err(e) = validate_sequence_uri(u.as_str()) {
                return Err(
                    ErrorMessage::prefixed(
                        String::from_str("Validation Error: Invalid sequence URI: "),
                        e,
                    ),
                );
            }
        }
        Ok(())
    }

    /// Checks the capture, given the outcome of the identifier check and the
    /// clock reading `now` (UNIX microseconds).
    pub fn validate_with(&self, id_check: Option<Result<(), String>>, now: i64) -> (r: Result<
        (),
        ErrorMessage,
    >)
        ensures
            failure(r) == geo_capture_error(self@, id_check, now),
    {
        if let Some(Err(e)) = id_check {
            return Err(ErrorMessage::from_text(e));
        }
        validate_pubky_uri(self.file_uri.as_str())?;
        validate_coordinates(self.lat, self.lon)?;
        self.validate_orientation()?;
        if let Some(c) = &self.caption {
            if char_count(c.as_str()) > MAX_CAPTION_LENGTH {
                return Err(
                    ErrorMessage::from_str(
                        "Validation Error: Caption exceeds maximum length of 500 characters",
                    ),
                );
            }
        }
        self.validate_sequence_link()?;
        match self.captured_at {
            Some(t) => check_timestamp_microseconds(t, "captured_at", now),
            None => Ok(()),
        }
    }

    /// Checks the capture against the clock, and the identifier `id` when
    /// given.
    pub fn validate(&self, id: Option<&str>) -> (r: Result<(), ErrorMessage>)
        ensures
            exists|v: Option<Result<(), String>>, now: i64|
                is_id_verdict(id, v) && failure(r) == #[trigger] geo_capture_error(self@, v, now),
    {
        let v = check_id(id);
        // The clock is read only for a positive capture time.
        let now = match self.captured_at {
            Some(t) => if t > 0 {
                timestamp()
            } else {
                0
            },
            None => 0,
        };
        self.validate_with(v, now)
    }
}

} // verus!
