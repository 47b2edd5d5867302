use mapky_app_specs::ids::{check_timestamp_id, create_timestamp_id};
use mapky_app_specs::models::object::MapkyAppObject;
use mapky_app_specs::models::review::MapkyAppReview;
use mapky_app_specs::models::sequence::MapkyAppSequence;
use mapky_app_specs::models::geo_capture::GeoCaptureKind;

fn review() -> MapkyAppReview {
    MapkyAppReview {
        place: "  https://www.openstreetmap.org/node/1 ".into(),
        rating: 4,
        content: Some(" fine ".into()),
        attachments: None,
    }
}

#[test]
fn from_path_unrecognized_segment() {
    let id = create_timestamp_id();
    let err = MapkyAppObject::from_path("posts", Ok(MapkyAppObject::Review(review())), &id)
        .unwrap_err();
    assert!(err.contains("Unrecognized mapky.app resource: posts"));
}

#[test]
fn from_path_passes_decoding_errors_on() {
    let id = create_timestamp_id();
    let err = MapkyAppObject::from_path("reviews", Err("missing field `place`".into()), &id)
        .unwrap_err();
    assert!(err.contains("missing field `place`"));
}

#[test]
fn from_path_sanitizes_then_validates() {
    let id = create_timestamp_id();
    match MapkyAppObject::from_path("reviews", Ok(MapkyAppObject::Review(review())), &id) {
        Ok(MapkyAppObject::Review(r)) => {
            assert_eq!(r.place, "https://www.openstreetmap.org/node/1");
            assert_eq!(r.content.as_deref(), Some("fine"));
        }
        other => panic!("unexpected {:?}", other),
    }
    let err = MapkyAppObject::from_path("reviews", Ok(MapkyAppObject::Review(review())), "short")
        .unwrap_err();
    assert!(err.contains("Invalid ID length"));
}

#[test]
fn from_path_sequence() {
    let id = create_timestamp_id();
    let s = MapkyAppSequence::new(GeoCaptureKind::Photo, 1, 2, 0);
    assert!(matches!(
        MapkyAppObject::from_path("sequences", Ok(MapkyAppObject::Sequence(s)), &id),
        Ok(MapkyAppObject::Sequence(_))
    ));
}

#[test]
fn timestamp_ids() {
    let id = create_timestamp_id();
    assert_eq!(id.chars().count(), 13);
    assert!(check_timestamp_id(&id).is_ok());
    assert_eq!(
        check_timestamp_id("0034A0X7NJ52").unwrap_err(),
        "Validation Error: Invalid ID length: must be 13 characters"
    );
    // Before 2024-10-01.
    assert_eq!(
        check_timestamp_id("0000000000000").unwrap_err(),
        "Validation Error: Invalid ID, timestamp must be after October 1st, 2024"
    );
    assert_eq!(
        check_timestamp_id("UUUUUUUUUUUUU").unwrap_err(),
        "Validation Error: Invalid Crockford Base32 encoding"
    );
}

#[test]
fn validate_rejects_ids_by_clock_free_rules() {
    let r = review();
    assert!(r
        .validate(Some("0000000000000"))
        .unwrap_err()
        .contains("timestamp must be after October 1st, 2024"));
    assert!(r
        .validate(Some("UUUUUUUUUUUUU"))
        .unwrap_err()
        .contains("Invalid Crockford Base32 encoding"));
    // Far in the future: "ZZZZZZZZZZZZZ" decodes to a negative timestamp.
    assert!(r.validate(Some("ZZZZZZZZZZZZZ")).is_err());
}
