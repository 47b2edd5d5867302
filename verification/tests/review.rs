use mapky_app_specs::constants::{MAPKY_PATH, MAX_ATTACHMENTS, PUBLIC_PATH};
use mapky_app_specs::models::object::MapkyAppObject;
use mapky_app_specs::models::review::MapkyAppReview;

fn test_place() -> String {
    "https://www.openstreetmap.org/node/1573053883".to_string()
}

/// Reads a review blob field by field, as a JSON decoder would.
fn review_from_json(blob: &[u8]) -> MapkyAppReview {
    let v: serde_json::Value = serde_json::from_slice(blob).unwrap();
    MapkyAppReview {
        place: v["place"].as_str().unwrap().to_string(),
        rating: v["rating"].as_u64().unwrap() as u8,
        content: v["content"].as_str().map(String::from),
        attachments: v["attachments"]
            .as_array()
            .map(|a| a.iter().map(|x| x.as_str().unwrap().to_string()).collect()),
    }
}

#[test]
fn review_test_create_id() {
    let review = MapkyAppReview::new(test_place(), 8, Some("Hello".into()), None);
    let id = review.create_id();
    assert_eq!(id.len(), 13);
}

#[test]
fn review_test_new() {
    let review = MapkyAppReview::new(test_place(), 8, Some("This is a test review".into()), None);
    assert_eq!(review.rating, 8);
    assert_eq!(review.content.unwrap(), "This is a test review");
    assert!(review.attachments.is_none());
}

#[test]
fn review_test_create_path() {
    let review = MapkyAppReview::new(test_place(), 5, None, None);
    let id = review.create_id();
    let path = MapkyAppReview::create_path(&id);
    let prefix = format!("{}{}reviews/", PUBLIC_PATH, MAPKY_PATH);
    assert!(path.starts_with(&prefix));
    assert_eq!(path.len(), prefix.len() + id.len());
}

#[test]
fn review_test_sanitize() {
    let review = MapkyAppReview::new(
        test_place(),
        7,
        Some("  trimmed content  ".into()),
        Some(vec!["  pubky://user123/pub/mapky.app/files/0034A0X7NJ52G  ".into()]),
    );
    let sanitized = review.sanitize();
    assert_eq!(sanitized.content.unwrap(), "trimmed content");
    let att = sanitized.attachments.unwrap();
    assert!(att[0].starts_with("pubky://"));
}

#[test]
fn review_test_validate_happy() {
    let review = MapkyAppReview::new(test_place(), 8, Some("Great!".into()), None);
    let id = review.create_id();
    assert!(review.validate(Some(&id)).is_ok());
}

#[test]
fn review_test_validate_rating_only() {
    let review = MapkyAppReview::new(test_place(), 5, None, None);
    let id = review.create_id();
    assert!(review.validate(Some(&id)).is_ok());
}

#[test]
fn test_validate_rating_range_low() {
    let review = MapkyAppReview::new(test_place(), 0, Some("Bad".into()), None);
    let id = review.create_id();
    assert!(review.validate(Some(&id)).is_err());
}

#[test]
fn test_validate_rating_range_high() {
    let review = MapkyAppReview::new(test_place(), 11, Some("Too high".into()), None);
    let id = review.create_id();
    assert!(review.validate(Some(&id)).is_err());
}

#[test]
fn test_validate_rating_boundaries() {
    for r in [1u8, 10] {
        let review = MapkyAppReview::new(test_place(), r, Some("ok".into()), None);
        let id = review.create_id();
        assert!(review.validate(Some(&id)).is_ok());
    }
}

#[test]
fn review_test_validate_non_pubky_attachment() {
    let review = MapkyAppReview {
        place: test_place(),
        rating: 6,
        content: Some("ok".into()),
        attachments: Some(vec!["https://example.com/file.jpg".into()]),
    };
    let id = review.create_id();
    let result = review.validate(Some(&id));
    assert!(result.is_err());
    assert!(result.unwrap_err().contains("pubky://"));
}

#[test]
fn review_test_validate_too_many_attachments() {
    let attachments: Vec<String> = (0..MAX_ATTACHMENTS + 1)
        .map(|i| format!("pubky://user123/pub/mapky.app/files/{:013}", i))
        .collect();
    let review = MapkyAppReview::new(test_place(), 7, None, Some(attachments));
    let id = review.create_id();
    let result = review.validate(Some(&id));
    assert!(result.is_err());
    assert!(result.unwrap_err().contains("Too many attachments"));
}

#[test]
fn review_test_validate_invalid_place() {
    let review = MapkyAppReview {
        place: "https://example.com/not-osm".into(),
        rating: 7,
        content: Some("Content".into()),
        attachments: None,
    };
    let id = review.create_id();
    let result = review.validate(Some(&id));
    assert!(result.is_err());
    assert!(result.unwrap_err().contains("OSM URL"));
}

#[test]
fn review_test_try_from_valid() {
    let json = r#"{
            "place": "https://www.openstreetmap.org/node/1573053883",
            "rating": 8,
            "content": "Great place!",
            "attachments": null
        }"#;

    let id = MapkyAppReview::new(test_place(), 8, Some("Great place!".into()), None).create_id();
    let decoded = MapkyAppObject::Review(review_from_json(json.as_bytes()));
    let parsed = match MapkyAppObject::from_path("reviews", Ok(decoded), &id).unwrap() {
        MapkyAppObject::Review(r) => r,
        other => panic!("expected a review, got {:?}", other),
    };
    assert_eq!(parsed.rating, 8);
    assert_eq!(parsed.content.unwrap(), "Great place!");
}

#[test]
fn review_test_place_accepts_way() {
    let review = MapkyAppReview::new(
        "https://www.openstreetmap.org/way/987654321".into(),
        7,
        Some("Nice street".into()),
        None,
    );
    let id = review.create_id();
    assert!(review.validate(Some(&id)).is_ok());
}

#[test]
fn review_test_place_accepts_relation() {
    let review = MapkyAppReview::new(
        "https://www.openstreetmap.org/relation/111111".into(),
        9,
        Some("Great area".into()),
        None,
    );
    let id = review.create_id();
    assert!(review.validate(Some(&id)).is_ok());
}

#[test]
fn review_rating_error_names_the_value() {
    let review = MapkyAppReview::new(test_place(), 11, None, None);
    let err = review.validate(None).unwrap_err();
    assert!(err.contains("Rating must be between 1 and 10, got 11"));
}

#[test]
fn review_content_limit() {
    let review = MapkyAppReview::new(test_place(), 5, Some("a".repeat(5001)), None);
    let err = review.validate(None).unwrap_err();
    assert!(err.contains("Content exceeds maximum length of 5000 characters"));
    let review = MapkyAppReview::new(test_place(), 5, Some("é".repeat(5000)), None);
    assert!(review.validate(None).is_ok());
}

#[test]
fn review_blank_attachment_rejected() {
    let review = MapkyAppReview::new(test_place(), 5, None, Some(vec!["   ".into()]));
    let err = review.validate(None).unwrap_err();
    assert!(err.contains("Attachment URL at index 0 cannot be empty"));
}

#[test]
fn review_wrong_id_length_rejected() {
    let review = MapkyAppReview::new(test_place(), 5, None, None);
    let err = review.validate(Some("0034A0X7NJ52")).unwrap_err();
    assert!(err.contains("Invalid ID length: must be 13 characters"));
}

#[test]
fn review_sanitize_normalizes_place() {
    let review = MapkyAppReview::new(
        "  https://WWW.openstreetmap.org/node/1  ".into(),
        5,
        None,
        None,
    );
    assert_eq!(review.place, "https://www.openstreetmap.org/node/1");
}
