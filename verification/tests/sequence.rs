use mapky_app_specs::common::{timestamp, BoundingBox};
use mapky_app_specs::constants::{
    MAX_SEQUENCE_CAPTURE_COUNT, MAX_SEQUENCE_DESCRIPTION_LENGTH, MAX_SEQUENCE_DEVICE_LENGTH,
    MAX_SEQUENCE_NAME_LENGTH,
};
use mapky_app_specs::models::geo_capture::GeoCaptureKind;
use mapky_app_specs::models::sequence::MapkyAppSequence;

fn base() -> MapkyAppSequence {
    let now = timestamp();
    MapkyAppSequence::new(GeoCaptureKind::Photo, now - 1_000_000, now, 3)
}

#[test]
fn test_create_id_and_path() {
    let seq = base();
    let id = seq.create_id();
    assert_eq!(id.len(), 13);
    let path = MapkyAppSequence::create_path(&id);
    assert!(path.starts_with("/pub/mapky.app/sequences/"));
}

#[test]
fn sequence_test_validate_happy() {
    let seq = base();
    let id = seq.create_id();
    assert!(seq.validate(Some(&id)).is_ok());
}

#[test]
fn test_validate_start_after_end() {
    let now = timestamp();
    let seq = MapkyAppSequence::new(GeoCaptureKind::Panorama, now, now - 1_000_000, 2);
    let id = seq.create_id();
    let result = seq.validate(Some(&id));
    assert!(result.is_err());
    assert!(result.unwrap_err().contains("captured_at_start"));
}

#[test]
fn test_validate_non_positive_start() {
    let seq = MapkyAppSequence::new(GeoCaptureKind::Photo, 0, 1, 1);
    let id = seq.create_id();
    assert!(seq.validate(Some(&id)).is_err());
}

#[test]
fn sequence_test_validate_name_too_long() {
    let mut seq = base();
    seq.name = Some("a".repeat(MAX_SEQUENCE_NAME_LENGTH + 1));
    let id = seq.create_id();
    assert!(seq.validate(Some(&id)).is_err());
}

#[test]
fn test_validate_description_too_long() {
    let mut seq = base();
    seq.description = Some("a".repeat(MAX_SEQUENCE_DESCRIPTION_LENGTH + 1));
    let id = seq.create_id();
    assert!(seq.validate(Some(&id)).is_err());
}

#[test]
fn test_validate_device_too_long() {
    let mut seq = base();
    seq.device = Some("a".repeat(MAX_SEQUENCE_DEVICE_LENGTH + 1));
    let id = seq.create_id();
    assert!(seq.validate(Some(&id)).is_err());
}

#[test]
fn test_validate_capture_count_cap() {
    let mut seq = base();
    seq.capture_count = MAX_SEQUENCE_CAPTURE_COUNT + 1;
    let id = seq.create_id();
    assert!(seq.validate(Some(&id)).is_err());
}

#[test]
fn test_validate_bbox_inverted() {
    let mut seq = base();
    seq.bbox = Some(BoundingBox {
        min_lat: 10.0_f64.to_bits(),
        min_lon: 0.0_f64.to_bits(),
        max_lat: 5.0_f64.to_bits(),
        max_lon: 10.0_f64.to_bits(),
    });
    let id = seq.create_id();
    assert!(seq.validate(Some(&id)).is_err());
}

#[test]
fn test_validate_bbox_out_of_range() {
    let mut seq = base();
    seq.bbox = Some(BoundingBox {
        min_lat: (-95.0_f64).to_bits(),
        min_lon: 0.0_f64.to_bits(),
        max_lat: 0.0_f64.to_bits(),
        max_lon: 10.0_f64.to_bits(),
    });
    let id = seq.create_id();
    assert!(seq.validate(Some(&id)).is_err());
}

#[test]
fn sequence_error_messages_carry_values() {
    let seq = MapkyAppSequence::new(GeoCaptureKind::Photo, 5, 4, 1);
    assert!(seq
        .validate(None)
        .unwrap_err()
        .contains("captured_at_start (5) must be <= captured_at_end (4)"));
    let seq = MapkyAppSequence::new(GeoCaptureKind::Photo, -7, 4, 1);
    assert!(seq.validate(None).unwrap_err().contains(
        "captured_at_start must be a positive UNIX timestamp in microseconds, got -7"
    ));
    let mut seq = base();
    seq.capture_count = 10_001;
    assert!(seq.validate(None).unwrap_err().contains("capture_count 10001 exceeds maximum of 10000"));
}

#[test]
fn sequence_end_too_far_in_future() {
    let now = timestamp();
    let seq = MapkyAppSequence::new(GeoCaptureKind::Video, now, now + 2 * 86_400_000_000, 1);
    assert!(seq.validate(None).unwrap_err().contains("is more than 1 day in the future"));
}

#[test]
fn sequence_sanitize_trims_and_is_idempotent() {
    let mut seq = base();
    seq.name = Some("  Walk ".into());
    seq.device = Some(" X4 ".into());
    let once = seq.sanitize();
    assert_eq!(once.name.as_deref(), Some("Walk"));
    assert_eq!(once.device.as_deref(), Some("X4"));
    let twice = once.clone().sanitize();
    assert_eq!(twice.name, once.name);
    assert_eq!(twice.device, once.device);
}

#[test]
fn sequence_bbox_new_and_validate() {
    let b = BoundingBox::new(47.0_f64.to_bits(), 8.0_f64.to_bits(), 47.1_f64.to_bits(), 8.1_f64.to_bits());
    assert_eq!(f64::from_bits(b.max_lat), 47.1);
    assert!(b.validate().is_ok());
    let b = BoundingBox::new(0.0_f64.to_bits(), 0.0_f64.to_bits(), 0.0_f64.to_bits(), f64::NAN.to_bits());
    assert!(b.validate().unwrap_err().contains("longitude out of range"));
    let b = BoundingBox::new(0.0_f64.to_bits(), 5.0_f64.to_bits(), 1.0_f64.to_bits(), 4.0_f64.to_bits());
    assert!(b.validate().unwrap_err().contains("BoundingBox min_lon "));
}
