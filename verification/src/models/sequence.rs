//! Capture sessions: coherent groups of geo-captures uploaded together.
//! Geo-captures name their sequence through `sequence_uri` and
//! `sequence_index`.
//!
//! URI: `/pub/mapky.app/sequences/:sequence_id`
use vstd::prelude::*;

use crate::checks::{check_id, id_error, is_id_verdict, opt_text, opt_trimmed, trim_opt};
use crate::common::{bbox_error, timestamp, BoundingBox};
use crate::constants::{
    MAPKY_PATH, MAX_SEQUENCE_CAPTURE_COUNT, MAX_SEQUENCE_DESCRIPTION_LENGTH,
    MAX_SEQUENCE_DEVICE_LENGTH, MAX_SEQUENCE_NAME_LENGTH, PUBLIC_PATH,
};
use crate::ids::{create_timestamp_id, is_timestamp_id_shape};
use crate::message::{failure, text, ErrorMessage, Piece};
use crate::models::geo_capture::GeoCaptureKind;
use crate::text::{char_count, decimal, push_decimal, push_signed_decimal, signed_decimal};
use crate::validation::{check_timestamp_microseconds, timestamp_error};

verus! {

/// A capture session.
#[derive(Clone, Debug)]
pub struct MapkyAppSequence {
    pub name: Option<String>,
    pub description: Option<String>,
    pub kind: GeoCaptureKind,
    /// Earliest capture, UNIX microseconds.
    pub captured_at_start: i64,
    /// Latest capture, UNIX microseconds; not before `captured_at_start`.
    pub captured_at_end: i64,
    /// Number of member captures, as declared by the client.
    pub capture_count: u32,
    /// Optional bounding box of all member captures.
    pub bbox: Option<BoundingBox>,
    /// Free-text device identifier.
    pub device: Option<String>,
}

/// A sequence as the contracts see it.
pub struct SequenceView {
    pub name: Option<Seq<char>>,
    pub description: Option<Seq<char>>,
    pub kind: GeoCaptureKind,
    pub captured_at_start: i64,
    pub captured_at_end: i64,
    pub capture_count: u32,
    pub bbox: Option<BoundingBox>,
    pub device: Option<Seq<char>>,
}

impl View for MapkyAppSequence {
    type V = SequenceView;

    open spec fn view(&self) -> SequenceView {
        SequenceView {
            name: opt_text(self.name),
            description: opt_text(self.description),
            kind: self.kind,
            captured_at_start: self.captured_at_start,
            captured_at_end: self.captured_at_end,
            capture_count: self.capture_count,
            bbox: self.bbox,
            device: opt_text(self.device),
        }
    }
}

/// What `sanitize` makes of a sequence: name, description and device
/// trimmed.
pub open spec fn sanitized_sequence(s: SequenceView) -> SequenceView {
    SequenceView {
        name: opt_trimmed(s.name),
        description: opt_trimmed(s.description),
        device: opt_trimmed(s.device),
        ..s
    }
}

/// The text limits: name at most 200 characters, description at most 1000,
/// device at most 200.
pub open spec fn sequence_text_error(s: SequenceView) -> Option<Seq<Piece>> {
    if s.name matches Some(n) && n.len() > MAX_SEQUENCE_NAME_LENGTH {
        Some(text("Validation Error: Sequence name exceeds maximum length of 200 characters"@))
    } else if s.description matches Some(d) && d.len() > MAX_SEQUENCE_DESCRIPTION_LENGTH {
        Some(
            text(
                "Validation Error: Sequence description exceeds maximum length of 1000 characters"@,
            ),
        )
    } else if s.device matches Some(d) && d.len() > MAX_SEQUENCE_DEVICE_LENGTH {
        Some(text("Validation Error: Sequence device exceeds maximum length of 200 characters"@))
    } else {
        None
    }
}

/// The first rule a sequence breaks: the identifier (when checked), the text
/// limits, the start time against the clock reading `now_start`, the end
/// time against the reading `now_end`, start not after end, at most 10000
/// captures, the bounding box.
pub open spec fn sequence_error(
    s: SequenceView,
    id_check: Option<Result<(), String>>,
    now_start: i64,
    now_end: i64,
) -> Option<Seq<Piece>> {
    if id_error(id_check) is Some {
        id_error(id_check)
    } else if sequence_text_error(s) is Some {
        sequence_text_error(s)
    } else if timestamp_error(s.captured_at_start, "captured_at_start"@, now_start) is Some {
        timestamp_error(s.captured_at_start, "captured_at_start"@, now_start)
    } else if timestamp_error(s.captured_at_end, "captured_at_end"@, now_end) is Some {
        timestamp_error(s.captured_at_end, "captured_at_end"@, now_end)
    } else if s.captured_at_start > s.captured_at_end {
        Some(
            text(
                "Validation Error: captured_at_start ("@ + signed_decimal(
                    s.captured_at_start as int,
                ) + ") must be <= captured_at_end ("@ + signed_decimal(s.captured_at_end as int)
                    + ")"@,
            ),
        )
    } else if s.capture_count > MAX_SEQUENCE_CAPTURE_COUNT {
        Some(
            text(
                "Validation Error: capture_count "@ + decimal(s.capture_count as nat)
                    + " exceeds maximum of 10000"@,
            ),
        )
    } else {
        match s.bbox {
            Some(b) => bbox_error(b),
            None => None,
        }
    }
}

impl MapkyAppSequence {
    /// A sequence of the given kind, time span and count, with no optional
    /// field set, sanitized.
    pub fn new(kind: GeoCaptureKind, captured_at_start: i64, captured_at_end: i64, capture_count: u32) -> (r:
        MapkyAppSequence)
        ensures
            r@ == sanitized_sequence(
                SequenceView {
                    name: None,
                    description: None,
                    kind,
                    captured_at_start,
                    captured_at_end,
                    capture_count,
                    bbox: None,
                    device: None,
                },
            ),
    {
        let sequence = MapkyAppSequence {
            name: None,
            description: None,
            kind,
            captured_at_start,
            captured_at_end,
            capture_count,
            bbox: None,
            device: None,
        };
        sequence.sanitize()
    }

    /// A fresh timestamp identifier.
    pub fn create_id(&self) -> (id: String)
        ensures
            is_timestamp_id_shape(id@),
    {
        create_timestamp_id()
    }

    /// The path of the sequence with identifier `id`.
    pub fn create_path(id: &str) -> (p: String)
        ensures
            p@ == PUBLIC_PATH@ + MAPKY_PATH@ + "sequences/"@ + id@,
    {
        let mut p = String::from_str(PUBLIC_PATH);
        p.append(MAPKY_PATH);
        p.append("sequences/");
        p.append(id);
        p
    }

    /// Trims the name, description and device.
    pub fn sanitize(self) -> (r: MapkyAppSequence)
        ensures
            r@ == sanitized_sequence(self@),
    {
        let name = trim_opt(self.name);
        let description = trim_opt(self.description);
        let device = trim_opt(self.device);
        MapkyAppSequence {
            name,
            description,
            kind: self.kind,
            captured_at_start: self.captured_at_start,
            captured_at_end: self.captured_at_end,
            capture_count: self.capture_count,
            bbox: self.bbox,
            device,
        }
    }

    fn validate_texts(&self) -> (r: Result<(), ErrorMessage>)
        ensures
            failure(r) == sequence_text_error(self@),
    {
        if let Some(n) = &self.name {
            if char_count(n.as_str()) > MAX_SEQUENCE_NAME_LENGTH {
                return Err(
                    ErrorMessage::from_str(
                        "Validation Error: Sequence name exceeds maximum length of 200 characters",
                    ),
                );
            }
        }
        if let Some(d) = &self.description {
            if char_count(d.as_str()) > MAX_SEQUENCE_DESCRIPTION_LENGTH {
                return Err(
                    ErrorMessage::from_str(
                        "Validation Error: Sequence description exceeds maximum length of 1000 characters",
                    ),
                );
            }
        }
        if let Some(d) = &self.device {
            if char_count(d.as_str()) > MAX_SEQUENCE_DEVICE_LENGTH {
                return Err(
                    ErrorMessage::from_str(
                        "Validation Error: Sequence device exceeds maximum length of 200 characters",
                    ),
                );
            }
        }
        Ok(())
    }

    /// Checks the sequence, given the outcome of the identifier check and the
    /// clock readings taken for the start and the end time.
    pub fn validate_with(
        &self,
        id_check: Option<Result<(), String>>,
        now_start: i64,
        now_end: i64,
    ) -> (r: Result<(), ErrorMessage>)
        ensures
            failure(r) == sequence_error(self@, id_check, now_start, now_end),
    {
        if let Some(Err(e)) = id_check {
            return Err(ErrorMessage::from_text(e));
        }
        self.validate_texts()?;
        check_timestamp_microseconds(self.captured_at_start, "captured_at_start", now_start)?;
        check_timestamp_microseconds(self.captured_at_end, "captured_at_end", now_end)?;
        if self.captured_at_start > self.captured_at_end {
            let mut s = String::from_str("Validation Error: captured_at_start (");
            push_signed_decimal(&mut s, self.captured_at_start);
            s.append(") must be <= captured_at_end (");
            push_signed_decimal(&mut s, self.captured_at_end);
            s.append(")");
            return Err(ErrorMessage::from_text(s));
        }
        if self.capture_count > MAX_SEQUENCE_CAPTURE_COUNT {
            let mut s = String::from_str("Validation Error: capture_count ");
            push_decimal(&mut s, self.capture_count as u64);
            s.append(" exceeds maximum of 10000");
            return Err(ErrorMessage::from_text(s));
        }
        match &self.bbox {
            Some(b) => b.validate(),
            None => Ok(()),
        }
    }

    /// Checks the sequence against the clock, and the identifier `id` when
    /// given.
    pub fn validate(&self, id: Option<&str>) -> (r: Result<(), ErrorMessage>)
        ensures
            exists|v: Option<Result<(), String>>, now_start: i64, now_end: i64|
                is_id_verdict(id, v) && failure(r) == #[trigger] sequence_error(
                    self@,
                    v,
                    now_start,
                    now_end,
                ),
    {
        let v = check_id(id);
        // The clock is read only for positive times.
        let now_start = if self.captured_at_start > 0 {
            timestamp()
        } else {
            0
        };
        let now_end = if self.captured_at_end > 0 {
            timestamp()
        } else {
            0
        };
        self.validate_with(v, now_start, now_end)
    }
}

} // verus!
