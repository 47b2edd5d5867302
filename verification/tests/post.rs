use mapky_app_specs::constants::{MAPKY_PATH, MAX_ATTACHMENTS, PUBLIC_PATH};
use mapky_app_specs::message::ErrorMessage;
use mapky_app_specs::models::post::{MapkyAppPost, MapkyAppPostKind};

/// Decodes a post blob field by field, then sanitizes and validates it with
/// the identifier `id`.
fn post_try_from(blob: &[u8], id: &str) -> Result<MapkyAppPost, ErrorMessage> {
    let v: serde_json::Value = serde_json::from_slice(blob).unwrap();
    let kind = match v["kind"].as_str() {
        Some("review") => MapkyAppPostKind::Review,
        _ => MapkyAppPostKind::Post,
    };
    let post = MapkyAppPost {
        kind,
        place: v["place"].as_str().unwrap().to_string(),
        content: v["content"].as_str().map(String::from),
        rating: v["rating"].as_u64().map(|r| r as u8),
        attachments: v["attachments"]
            .as_array()
            .map(|a| a.iter().map(|x| x.as_str().unwrap().to_string()).collect()),
        parent: v["parent"].as_str().map(String::from),
    }
    .sanitize();
    post.validate(Some(id))?;
    Ok(post)
}

fn test_place() -> String {
    "https://www.openstreetmap.org/node/1573053883".to_string()
}

#[test]
fn post_test_create_id() {
    let post = MapkyAppPost::new(
        MapkyAppPostKind::Post,
        test_place(),
        Some("Hello World!".to_string()),
        None,
        None,
        None,
    );
    let post_id = post.create_id();
    assert_eq!(post_id.len(), 13);
}

#[test]
fn post_test_new() {
    let content = "This is a test review".to_string();
    let post = MapkyAppPost::new(
        MapkyAppPostKind::Review,
        test_place(),
        Some(content.clone()),
        Some(8),
        None,
        None,
    );
    assert_eq!(post.kind, MapkyAppPostKind::Review);
    assert_eq!(post.content.unwrap(), content);
    assert_eq!(post.rating, Some(8));
    assert!(post.parent.is_none());
    assert!(post.attachments.is_none());
}

#[test]
fn post_test_create_path() {
    let post = MapkyAppPost::new(
        MapkyAppPostKind::Post,
        test_place(),
        Some("Test".to_string()),
        None,
        None,
        None,
    );
    let post_id = post.create_id();
    let path = MapkyAppPost::create_path(&post_id);
    let prefix = format!("{}{}posts/", PUBLIC_PATH, MAPKY_PATH);
    assert!(path.starts_with(&prefix));
    assert_eq!(path.len(), prefix.len() + post_id.len());
}

#[test]
fn post_test_sanitize() {
    let post = MapkyAppPost::new(
        MapkyAppPostKind::Post,
        test_place(),
        Some("  trimmed content  ".to_string()),
        None,
        Some(vec![
            "  pubky://user123/pub/mapky.app/files/0034A0X7NJ52G  ".to_string(),
        ]),
        Some("  pubky://user123/pub/mapky.app/posts/0034A0X7NJ52G  ".to_string()),
    );
    let sanitized = post.sanitize();
    assert_eq!(sanitized.content.unwrap(), "trimmed content");
    assert!(sanitized.parent.unwrap().starts_with("pubky://"));
    let att = sanitized.attachments.unwrap();
    assert!(att[0].starts_with("pubky://"));
}

#[test]
fn post_test_validate_happy() {
    let post = MapkyAppPost::new(
        MapkyAppPostKind::Review,
        test_place(),
        Some("Great place!".to_string()),
        Some(8),
        None,
        None,
    );
    let id = post.create_id();
    assert!(post.validate(Some(&id)).is_ok());
}

#[test]
fn post_test_validate_rating_only() {
    let post = MapkyAppPost::new(
        MapkyAppPostKind::Review,
        test_place(),
        None,
        Some(5),
        None,
        None,
    );
    let id = post.create_id();
    assert!(post.validate(Some(&id)).is_ok());
}

#[test]
fn test_validate_attachments_only() {
    let post = MapkyAppPost::new(
        MapkyAppPostKind::Post,
        test_place(),
        None,
        None,
        Some(vec![
            "pubky://user123/pub/mapky.app/files/0034A0X7NJ52G".to_string(),
        ]),
        None,
    );
    let id = post.create_id();
    assert!(post.validate(Some(&id)).is_ok());
}

#[test]
fn test_validate_empty_post_rejected() {
    let post = MapkyAppPost::new(
        MapkyAppPostKind::Post,
        test_place(),
        None,
        None,
        None,
        None,
    );
    let id = post.create_id();
    let result = post.validate(Some(&id));
    assert!(result.is_err());
    assert!(result.unwrap_err().contains("must have content"));
}

#[test]
fn test_validate_rating_range() {
    let post = MapkyAppPost::new(
        MapkyAppPostKind::Review,
        test_place(),
        Some("Review".into()),
        Some(0),
        None,
        None,
    );
    let id = post.create_id();
    assert!(post.validate(Some(&id)).is_err());

    let post = MapkyAppPost::new(
        MapkyAppPostKind::Review,
        test_place(),
        Some("Review".into()),
        Some(11),
        None,
        None,
    );
    let id = post.create_id();
    assert!(post.validate(Some(&id)).is_err());

    let post = MapkyAppPost::new(
        MapkyAppPostKind::Review,
        test_place(),
        Some("Review".into()),
        Some(10),
        None,
        None,
    );
    let id = post.create_id();
    assert!(post.validate(Some(&id)).is_ok());

    let post = MapkyAppPost::new(
        MapkyAppPostKind::Review,
        test_place(),
        Some("Review".into()),
        Some(1),
        None,
        None,
    );
    let id = post.create_id();
    assert!(post.validate(Some(&id)).is_ok());
}

#[test]
fn test_validate_invalid_parent_uri() {
    let post = MapkyAppPost {
        kind: MapkyAppPostKind::Post,
        place: test_place(),
        content: Some("Valid content".into()),
        rating: None,
        attachments: None,
        parent: Some("invalid uri".into()),
    };
    let id = post.create_id();
    let result = post.validate(Some(&id));
    assert!(result.is_err());
    assert!(result.unwrap_err().contains("Invalid parent URI format"));
}

#[test]
fn post_test_validate_non_pubky_attachment() {
    let post = MapkyAppPost {
        kind: MapkyAppPostKind::Post,
        place: test_place(),
        content: Some("Valid content".into()),
        rating: None,
        attachments: Some(vec!["https://example.com/file.jpg".into()]),
        parent: None,
    };
    let id = post.create_id();
    let result = post.validate(Some(&id));
    assert!(result.is_err());
    assert!(result.unwrap_err().contains("pubky://"));
}

#[test]
fn post_test_validate_too_many_attachments() {
    let attachments: Vec<String> = (0..MAX_ATTACHMENTS + 1)
        .map(|i| format!("pubky://user123/pub/mapky.app/files/{:013}", i))
        .collect();
    let post = MapkyAppPost::new(
        MapkyAppPostKind::Post,
        test_place(),
        Some("Content".into()),
        None,
        Some(attachments),
        None,
    );
    let id = post.create_id();
    let result = post.validate(Some(&id));
    assert!(result.is_err());
    assert!(result.unwrap_err().contains("Too many attachments"));
}

#[test]
fn post_test_validate_invalid_place() {
    let post = MapkyAppPost {
        kind: MapkyAppPostKind::Post,
        place: "https://example.com/not-osm".into(),
        content: Some("Content".into()),
        rating: None,
        attachments: None,
        parent: None,
    };
    let id = post.create_id();
    let result = post.validate(Some(&id));
    assert!(result.is_err());
    assert!(result.unwrap_err().contains("OSM URL"));
}

#[test]
fn post_test_try_from_valid() {
    let post_json = r#"{
        "kind": "review",
        "place": "https://www.openstreetmap.org/node/1573053883",
        "content": "Great place!",
        "rating": 8,
        "attachments": null,
        "parent": null
    }"#;

    let post = MapkyAppPost::new(
        MapkyAppPostKind::Review,
        "https://www.openstreetmap.org/node/1573053883".into(),
        Some("Great place!".into()),
        Some(8),
        None,
        None,
    );
    let id = post.create_id();

    let result = post_try_from(post_json.as_bytes(), &id);
    assert!(result.is_ok());
    let parsed = result.unwrap();
    assert_eq!(parsed.kind, MapkyAppPostKind::Review);
    assert_eq!(parsed.content.unwrap(), "Great place!");
    assert_eq!(parsed.rating, Some(8));
}

#[test]
fn test_validate_review_requires_rating() {
    let post = MapkyAppPost::new(
        MapkyAppPostKind::Review,
        test_place(),
        Some("Nice spot".into()),
        None,
        None,
        None,
    );
    let id = post.create_id();
    let result = post.validate(Some(&id));
    assert!(result.is_err());
    assert!(result.unwrap_err().contains("Review must have a rating"));
}

#[test]
fn test_validate_post_no_rating() {
    let post = MapkyAppPost {
        kind: MapkyAppPostKind::Post,
        place: test_place(),
        content: Some("Nice spot".into()),
        rating: Some(7),
        attachments: None,
        parent: None,
    };
    let id = post.create_id();
    let result = post.validate(Some(&id));
    assert!(result.is_err());
    assert!(result
        .unwrap_err()
        .contains("Post kind cannot have a rating"));
}

#[test]
fn test_validate_post_content_or_attachments() {
    let post = MapkyAppPost::new(
        MapkyAppPostKind::Post,
        test_place(),
        None,
        None,
        None,
        None,
    );
    let id = post.create_id();
    let result = post.validate(Some(&id));
    assert!(result.is_err());
    assert!(result.unwrap_err().contains("must have content or attachments"));
}

#[test]
fn test_validate_review_with_parent() {
    let post = MapkyAppPost::new(
        MapkyAppPostKind::Review,
        test_place(),
        Some("Follow-up review".into()),
        Some(6),
        None,
        Some("pubky://user123/pub/mapky.app/posts/0034A0X7NJ52G".into()),
    );
    let id = post.create_id();
    assert!(post.validate(Some(&id)).is_ok());
}

#[test]
fn test_validate_post_with_parent() {
    let post = MapkyAppPost::new(
        MapkyAppPostKind::Post,
        test_place(),
        Some("Good point!".into()),
        None,
        None,
        Some("pubky://user123/pub/mapky.app/posts/0034A0X7NJ52G".into()),
    );
    let id = post.create_id();
    assert!(post.validate(Some(&id)).is_ok());
}

#[test]
fn post_test_place_accepts_way() {
    let post = MapkyAppPost::new(
        MapkyAppPostKind::Review,
        "https://www.openstreetmap.org/way/987654321".into(),
        Some("Nice street".into()),
        Some(7),
        None,
        None,
    );
    let id = post.create_id();
    assert!(post.validate(Some(&id)).is_ok());
}

#[test]
fn post_test_place_accepts_relation() {
    let post = MapkyAppPost::new(
        MapkyAppPostKind::Review,
        "https://www.openstreetmap.org/relation/111111".into(),
        Some("Great area".into()),
        Some(9),
        None,
        None,
    );
    let id = post.create_id();
    assert!(post.validate(Some(&id)).is_ok());
}

#[test]
fn post_blank_content_without_attachments_rejected() {
    let post = MapkyAppPost::new(
        MapkyAppPostKind::Post,
        test_place(),
        Some("   ".into()),
        None,
        Some(vec![]),
        None,
    );
    let err = post.validate(None).unwrap_err();
    assert!(err.contains("Post must have content or attachments"));
}

#[test]
fn post_rating_error_names_the_value() {
    let post = MapkyAppPost::new(
        MapkyAppPostKind::Review,
        test_place(),
        None,
        Some(0),
        None,
        None,
    );
    let err = post.validate(None).unwrap_err();
    assert!(err.contains("Rating must be between 1 and 10, got 0"));
}

#[test]
fn post_sanitize_normalizes_parent() {
    let post = MapkyAppPost::new(
        MapkyAppPostKind::Post,
        test_place(),
        Some("hi".into()),
        None,
        None,
        Some(" HTTPS://Example.COM ".into()),
    );
    assert_eq!(post.parent.unwrap(), "https://example.com/");
}
