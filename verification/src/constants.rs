//! Paths and limits of the MapKy data models.
use vstd::prelude::*;

verus! {

/// Prefix of every public path on a homeserver.
pub const PUBLIC_PATH: &'static str = "/pub/";

/// The MapKy application directory under the public path.
pub const MAPKY_PATH: &'static str = "mapky.app/";

/// Scheme prefix of Pubky URIs.
pub const PROTOCOL: &'static str = "pubky://";

/// Maximum number of characters of post or review content.
pub const MAX_CONTENT_LENGTH: usize = 5000;

/// Maximum number of attachments of a post or review.
pub const MAX_ATTACHMENTS: usize = 20;

/// Maximum number of characters of one attachment URL.
pub const MAX_ATTACHMENT_URL_LENGTH: usize = 300;

/// Maximum number of characters of a shared description (collections).
pub const MAX_DESCRIPTION_LENGTH: usize = 2000;

/// Maximum number of characters of an incident description.
pub const MAX_INCIDENT_DESCRIPTION_LENGTH: usize = 500;

/// Maximum number of attachments of an incident.
pub const MAX_INCIDENT_ATTACHMENTS: usize = 5;

/// Maximum number of characters of a geo-capture caption.
pub const MAX_CAPTION_LENGTH: usize = 500;

/// Maximum number of characters of a sequence name.
pub const MAX_SEQUENCE_NAME_LENGTH: usize = 200;

/// Maximum number of characters of a sequence description.
pub const MAX_SEQUENCE_DESCRIPTION_LENGTH: usize = 1000;

/// Maximum number of characters of a sequence device identifier.
pub const MAX_SEQUENCE_DEVICE_LENGTH: usize = 200;

/// Maximum number of captures a sequence may declare.
pub const MAX_SEQUENCE_CAPTURE_COUNT: u32 = 10000;

/// Maximum number of characters of a route name.
pub const MAX_ROUTE_NAME_LENGTH: usize = 200;

/// Maximum number of characters of a route description.
pub const MAX_ROUTE_DESCRIPTION_LENGTH: usize = 10000;

/// Maximum number of waypoints of a route.
pub const MAX_ROUTE_WAYPOINTS: usize = 10000;

/// Minimum number of waypoints (and of control points, when given).
pub const MIN_WAYPOINTS: usize = 2;

/// Maximum number of control points of a route.
pub const MAX_ROUTE_CONTROL_POINTS: usize = 500;

/// Maximum number of characters of a route step instruction.
pub const MAX_ROUTE_INSTRUCTION_LENGTH: usize = 500;

/// Maximum number of characters of a waypoint name.
pub const MAX_WAYPOINT_NAME_LENGTH: usize = 100;

/// Maximum length in bytes of an encoded route polyline.
pub const MAX_ROUTE_POLYLINE_LENGTH: usize = 200000;

/// Maximum number of characters of a routing engine name.
pub const MAX_ROUTE_ENGINE_LENGTH: usize = 32;

/// Maximum number of characters of a routing costing profile.
pub const MAX_ROUTE_COSTING_LENGTH: usize = 32;

/// Maximum number of places in a collection.
pub const MAX_COLLECTION_ITEMS: usize = 500;

/// Maximum number of characters of a collection name.
pub const MAX_COLLECTION_NAME_LENGTH: usize = 200;

/// Maximum number of characters of a location tag category or label.
pub const MAX_TAG_LABEL_LENGTH: usize = 20;

/// Minimum number of characters of a location tag category or label.
pub const MIN_TAG_LABEL_LENGTH: usize = 1;

/// Characters a location tag category or label may not hold.
pub const INVALID_TAG_CHARS: [char; 6] = [',', ':', ' ', '\t', '\n', '\r'];

} // verus!
