use mapky_app_specs::models::osm_ref::{OsmElementType, OsmRef};

#[test]
fn test_canonical() {
    let osm_ref = OsmRef::new(OsmElementType::Node, 1573053883);
    assert_eq!(osm_ref.canonical(), "node/1573053883");
}

#[test]
fn test_osm_url() {
    let osm_ref = OsmRef::new(OsmElementType::Way, 987654321);
    assert_eq!(
        osm_ref.osm_url(),
        "https://www.openstreetmap.org/way/987654321"
    );
}

#[test]
fn test_from_canonical() {
    let osm_ref = OsmRef::from_canonical("relation/111111").unwrap();
    assert_eq!(osm_ref.osm_type, OsmElementType::Relation);
    assert_eq!(osm_ref.osm_id, 111111);
}

#[test]
fn test_from_canonical_roundtrip() {
    let osm_ref = OsmRef::new(OsmElementType::Node, 42);
    let canonical = osm_ref.canonical();
    let parsed = OsmRef::from_canonical(&canonical).unwrap();
    assert_eq!(osm_ref, parsed);
}

#[test]
fn test_from_canonical_invalid_type() {
    let result = OsmRef::from_canonical("invalid/123");
    assert!(result.is_err());
}

#[test]
fn test_from_canonical_invalid_format() {
    let result = OsmRef::from_canonical("node123");
    assert!(result.is_err());
}

#[test]
fn test_validate_positive_id() {
    let osm_ref = OsmRef::new(OsmElementType::Node, 1);
    assert!(osm_ref.validate().is_ok());
}

#[test]
fn test_validate_zero_id() {
    let osm_ref = OsmRef::new(OsmElementType::Node, 0);
    assert!(osm_ref.validate().is_err());
}

#[test]
fn test_validate_negative_id() {
    let osm_ref = OsmRef::new(OsmElementType::Node, -1);
    assert!(osm_ref.validate().is_err());
}

#[test]
fn osm_ref_element_names() {
    assert_eq!(OsmElementType::Node.to_string(), "node");
    assert_eq!(OsmElementType::Way.to_string(), "way");
    assert_eq!(OsmElementType::Relation.to_string(), "relation");
}

#[test]
fn osm_ref_canonical_negative_and_round_trip() {
    let r = OsmRef::new(OsmElementType::Relation, -12);
    assert_eq!(r.canonical(), "relation/-12");
    assert_eq!(OsmRef::from_canonical(&r.canonical()).unwrap(), r);
    let r = OsmRef::new(OsmElementType::Way, i64::MIN);
    assert_eq!(OsmRef::from_canonical(&r.canonical()).unwrap(), r);
}

#[test]
fn osm_ref_from_canonical_errors() {
    assert!(OsmRef::from_canonical("node123")
        .unwrap_err()
        .contains("Invalid canonical format: node123"));
    assert!(OsmRef::from_canonical("invalid/123")
        .unwrap_err()
        .contains("Invalid OSM element type: invalid"));
    assert!(OsmRef::from_canonical("node/abc").is_err());
    assert!(OsmRef::from_canonical("node/1/2").is_err());
    assert_eq!(
        OsmRef::from_canonical("way/+7").unwrap(),
        OsmRef::new(OsmElementType::Way, 7)
    );
}

#[test]
fn osm_ref_validate_message() {
    let err = OsmRef::new(OsmElementType::Node, 0).validate().unwrap_err();
    assert!(err.contains("OSM ID must be positive, got 0"));
}
