use mapky_app_specs::constants::{MAPKY_PATH, PUBLIC_PATH};
use mapky_app_specs::message::ErrorMessage;
use mapky_app_specs::models::location_tag::MapkyAppLocationTag;
use mapky_app_specs::models::osm_ref::{OsmElementType, OsmRef};

/// Decodes a location tag blob field by field, then sanitizes and validates
/// it with the identifier `id`.
fn location_tag_try_from(blob: &[u8], id: &str) -> Result<MapkyAppLocationTag, ErrorMessage> {
    let v: serde_json::Value = serde_json::from_slice(blob).unwrap();
    let osm_type = match v["place"]["osm_type"].as_str().unwrap() {
        "node" => OsmElementType::Node,
        "way" => OsmElementType::Way,
        _ => OsmElementType::Relation,
    };
    let tag = MapkyAppLocationTag {
        place: OsmRef::new(osm_type, v["place"]["osm_id"].as_i64().unwrap()),
        category: v["category"].as_str().unwrap().to_string(),
        label: v["label"].as_str().unwrap().to_string(),
        rating: v["rating"].as_u64().map(|r| r as u8),
        created_at: v["created_at"].as_i64().unwrap(),
    }
    .sanitize();
    tag.validate(Some(id))?;
    Ok(tag)
}

fn test_place() -> OsmRef {
    OsmRef::new(OsmElementType::Node, 1573053883)
}

#[test]
fn test_create_id_deterministic() {
    let tag1 = MapkyAppLocationTag {
        place: test_place(),
        category: "safety".into(),
        label: "well-lit".into(),
        rating: Some(8),
        created_at: 1000,
    };
    let tag2 = MapkyAppLocationTag {
        place: test_place(),
        category: "safety".into(),
        label: "well-lit".into(),
        rating: Some(3), // different rating, same ID
        created_at: 2000,
    };
    assert_eq!(tag1.create_id(), tag2.create_id());
}

#[test]
fn test_different_label_different_id() {
    let tag1 = MapkyAppLocationTag {
        place: test_place(),
        category: "safety".into(),
        label: "well-lit".into(),
        rating: None,
        created_at: 1000,
    };
    let tag2 = MapkyAppLocationTag {
        place: test_place(),
        category: "safety".into(),
        label: "dark".into(),
        rating: None,
        created_at: 1000,
    };
    assert_ne!(tag1.create_id(), tag2.create_id());
}

#[test]
fn location_tag_test_new() {
    let tag = MapkyAppLocationTag::new(
        test_place(),
        "Safety".into(),
        "Well-Lit".into(),
        Some(8),
    );
    assert_eq!(tag.category, "safety");
    assert_eq!(tag.label, "well-lit");
    assert_eq!(tag.rating, Some(8));
}

#[test]
fn location_tag_test_create_path() {
    let tag = MapkyAppLocationTag::new(
        test_place(),
        "safety".into(),
        "well-lit".into(),
        None,
    );
    let id = tag.create_id();
    let path = MapkyAppLocationTag::create_path(&id);
    let prefix = format!("{}{}location_tags/", PUBLIC_PATH, MAPKY_PATH);
    assert!(path.starts_with(&prefix));
}

#[test]
fn location_tag_test_validate_happy() {
    let tag = MapkyAppLocationTag::new(
        test_place(),
        "safety".into(),
        "well-lit".into(),
        Some(8),
    );
    let id = tag.create_id();
    assert!(tag.validate(Some(&id)).is_ok());
}

#[test]
fn test_validate_invalid_rating() {
    let tag = MapkyAppLocationTag::new(
        test_place(),
        "safety".into(),
        "well-lit".into(),
        Some(11),
    );
    let id = tag.create_id();
    assert!(tag.validate(Some(&id)).is_err());
}

#[test]
fn test_validate_empty_label() {
    let tag = MapkyAppLocationTag {
        place: test_place(),
        category: "safety".into(),
        label: "".into(),
        rating: None,
        created_at: 1000,
    };
    let id = tag.create_id();
    assert!(tag.validate(Some(&id)).is_err());
}

#[test]
fn location_tag_test_validate_invalid_place() {
    let tag = MapkyAppLocationTag::new(
        OsmRef::new(OsmElementType::Node, 0),
        "safety".into(),
        "well-lit".into(),
        None,
    );
    let id = tag.create_id();
    assert!(tag.validate(Some(&id)).is_err());
}

#[test]
fn location_tag_test_try_from_valid() {
    let tag_json = r#"{
        "place": {"osm_type": "node", "osm_id": 1573053883},
        "category": "safety",
        "label": "well-lit",
        "rating": 8,
        "created_at": 1627849723000
    }"#;

    let tag = MapkyAppLocationTag::new(
        test_place(),
        "safety".into(),
        "well-lit".into(),
        Some(8),
    );
    let id = tag.create_id();

    let result = location_tag_try_from(tag_json.as_bytes(), &id);
    assert!(result.is_ok());
}

#[test]
fn location_tag_id_data() {
    let tag = MapkyAppLocationTag::new(test_place(), "Safety".into(), "Well-Lit".into(), None);
    assert_eq!(tag.get_id_data(), "node/1573053883:safety:well-lit");
    assert_eq!(tag.create_id().len(), 26);
}

#[test]
fn location_tag_wrong_id_message() {
    let tag = MapkyAppLocationTag::new(test_place(), "safety".into(), "lit".into(), None);
    let expected = tag.create_id();
    let err = tag.validate(Some("0000000000000")).unwrap_err();
    assert!(err.contains(&format!("Invalid ID: expected {}, found 0000000000000", expected)));
}

#[test]
fn location_tag_label_messages() {
    let mut tag = MapkyAppLocationTag::new(test_place(), "safety".into(), "lit".into(), None);
    tag.label = "a".repeat(21);
    assert!(tag
        .validate(None)
        .unwrap_err()
        .contains("Validation Error: Tag 'aaaaaaaaaaaaaaaaaaaaa' exceeds maximum length of 20 characters"));
    tag.label = "well lit".into();
    assert!(tag.validate(None).unwrap_err().contains("contains whitespace characters"));
    tag.label = "a:b".into();
    assert!(tag.validate(None).unwrap_err().contains("contains invalid character: :"));
    tag.label = "ok".into();
    tag.category = "".into();
    assert!(tag.validate(None).unwrap_err().contains(
        "Validation Error: Category '' is shorter than minimum length of 1 character"
    ));
    tag.category = "Tag,".into();
    assert!(tag
        .validate(None)
        .unwrap_err()
        .contains("Validation Error: Category 'Category,' contains invalid character: ,"));
}

#[test]
fn location_tag_sanitize_trims_and_lowercases() {
    let tag = MapkyAppLocationTag::new(test_place(), "  SAFETY ".into(), " ÄRGER ".into(), Some(2));
    assert_eq!(tag.category, "safety");
    assert_eq!(tag.label, "ärger");
}
