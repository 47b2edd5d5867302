use mapky_app_specs::message::ErrorMessage;
use mapky_app_specs::models::incident::{IncidentSeverity, IncidentType, MapkyAppIncident};
use mapky_app_specs::models::object::MapkyAppObject;

fn incident_type_named(s: &str) -> IncidentType {
    match s {
        "accident" => IncidentType::Accident,
        "hazard" => IncidentType::Hazard,
        "road_closure" => IncidentType::RoadClosure,
        "police" => IncidentType::Police,
        "flooding" => IncidentType::Flooding,
        "ice_snow" => IncidentType::IceSnow,
        "poor_visibility" => IncidentType::PoorVisibility,
        "danger" => IncidentType::Danger,
        _ => IncidentType::Other,
    }
}

fn severity_named(s: &str) -> IncidentSeverity {
    match s {
        "low" => IncidentSeverity::Low,
        "high" => IncidentSeverity::High,
        _ => IncidentSeverity::Medium,
    }
}

/// Decodes an incident blob field by field and turns it into an object
/// stored under `incidents`.
fn incident_try_from(blob: &[u8], id: &str) -> Result<MapkyAppIncident, ErrorMessage> {
    let v: serde_json::Value = serde_json::from_slice(blob).unwrap();
    let incident = MapkyAppIncident {
        incident_type: incident_type_named(v["incident_type"].as_str().unwrap()),
        severity: severity_named(v["severity"].as_str().unwrap()),
        lat: v["lat"].as_f64().unwrap().to_bits(),
        lon: v["lon"].as_f64().unwrap().to_bits(),
        heading: v["heading"].as_f64().map(f64::to_bits),
        description: v["description"].as_str().map(String::from),
        attachments: v["attachments"]
            .as_array()
            .map(|a| a.iter().map(|x| x.as_str().unwrap().to_string()).collect()),
        expires_at: v["expires_at"].as_i64(),
    };
    match MapkyAppObject::from_path("incidents", Ok(MapkyAppObject::Incident(incident)), id)? {
        MapkyAppObject::Incident(i) => Ok(i),
        other => panic!("expected an incident, got {:?}", other),
    }
}

#[test]
fn incident_test_create_id() {
    let incident = MapkyAppIncident::new(
        IncidentType::Accident,
        IncidentSeverity::High,
        47.3769_f64.to_bits(),
        8.5417_f64.to_bits(),
    );
    let id = incident.create_id();
    assert_eq!(id.len(), 13);
}

#[test]
fn incident_test_create_path() {
    let incident = MapkyAppIncident::new(IncidentType::Hazard, IncidentSeverity::Low, 0.0_f64.to_bits(), 0.0_f64.to_bits());
    let id = incident.create_id();
    let path = MapkyAppIncident::create_path(&id);
    assert!(path.starts_with("/pub/mapky.app/incidents/"));
}

#[test]
fn incident_test_validate_happy() {
    let incident = MapkyAppIncident::new(
        IncidentType::Flooding,
        IncidentSeverity::Medium,
        47.3769_f64.to_bits(),
        8.5417_f64.to_bits(),
    );
    let id = incident.create_id();
    assert!(incident.validate(Some(&id)).is_ok());
}

#[test]
fn test_validate_invalid_lat() {
    let incident =
        MapkyAppIncident::new(IncidentType::Accident, IncidentSeverity::High, 91.0_f64.to_bits(), 0.0_f64.to_bits());
    let id = incident.create_id();
    assert!(incident.validate(Some(&id)).is_err());
}

#[test]
fn test_validate_invalid_lon() {
    let incident =
        MapkyAppIncident::new(IncidentType::Accident, IncidentSeverity::High, 0.0_f64.to_bits(), 181.0_f64.to_bits());
    let id = incident.create_id();
    assert!(incident.validate(Some(&id)).is_err());
}

#[test]
fn test_validate_invalid_heading() {
    let mut incident =
        MapkyAppIncident::new(IncidentType::Accident, IncidentSeverity::High, 0.0_f64.to_bits(), 0.0_f64.to_bits());
    incident.heading = Some(361.0_f64.to_bits());
    let id = incident.create_id();
    assert!(incident.validate(Some(&id)).is_err());
}

#[test]
fn incident_test_validate_too_many_attachments() {
    let mut incident = MapkyAppIncident::new(
        IncidentType::Accident,
        IncidentSeverity::High,
        47.3769_f64.to_bits(),
        8.5417_f64.to_bits(),
    );
    incident.attachments = Some(
        (0..6)
            .map(|i| format!("pubky://user123/pub/mapky.app/files/{:013}", i))
            .collect(),
    );
    let id = incident.create_id();
    let result = incident.validate(Some(&id));
    assert!(result.is_err());
    assert!(result.unwrap_err().contains("Too many attachments"));
}

#[test]
fn test_validate_five_attachments_ok() {
    let mut incident = MapkyAppIncident::new(
        IncidentType::Accident,
        IncidentSeverity::High,
        47.3769_f64.to_bits(),
        8.5417_f64.to_bits(),
    );
    incident.attachments = Some(
        (0..5)
            .map(|i| format!("pubky://user123/pub/mapky.app/files/{:013}", i))
            .collect(),
    );
    let id = incident.create_id();
    assert!(incident.validate(Some(&id)).is_ok());
}

#[test]
fn test_validate_expires_at_in_past() {
    let mut incident =
        MapkyAppIncident::new(IncidentType::Hazard, IncidentSeverity::Low, 0.0_f64.to_bits(), 0.0_f64.to_bits());
    incident.expires_at = Some(1_000_000); // way in the past (microseconds)
    let id = incident.create_id();
    let result = incident.validate(Some(&id));
    assert!(result.is_err());
    assert!(result
        .unwrap_err()
        .contains("expires_at must be in the future"));
}

#[test]
fn test_validate_expires_at_in_future() {
    let mut incident =
        MapkyAppIncident::new(IncidentType::Hazard, IncidentSeverity::Low, 0.0_f64.to_bits(), 0.0_f64.to_bits());
    // Set to far in the future (year ~2100 in microseconds)
    incident.expires_at = Some(4_102_444_800_000_000);
    let id = incident.create_id();
    assert!(incident.validate(Some(&id)).is_ok());
}

#[test]
fn test_validate_all_incident_types() {
    let types = vec![
        IncidentType::Accident,
        IncidentType::Hazard,
        IncidentType::RoadClosure,
        IncidentType::Police,
        IncidentType::Flooding,
        IncidentType::IceSnow,
        IncidentType::PoorVisibility,
        IncidentType::Danger,
        IncidentType::Other,
    ];
    for t in types {
        let incident = MapkyAppIncident::new(t, IncidentSeverity::Low, 0.0_f64.to_bits(), 0.0_f64.to_bits());
        let id = incident.create_id();
        assert!(incident.validate(Some(&id)).is_ok());
    }
}

#[test]
fn incident_test_try_from_valid() {
    let json = r#"{
        "incident_type": "accident",
        "severity": "high",
        "lat": 47.3769,
        "lon": 8.5417,
        "heading": null,
        "description": "Multi-car pileup",
        "attachments": null,
        "expires_at": null
    }"#;
    let incident = MapkyAppIncident::new(
        IncidentType::Accident,
        IncidentSeverity::High,
        47.3769_f64.to_bits(),
        8.5417_f64.to_bits(),
    );
    let id = incident.create_id();
    let result = incident_try_from(json.as_bytes(), &id);
    assert!(result.is_ok());
}

#[test]
fn incident_description_limit_and_trim() {
    let mut incident =
        MapkyAppIncident::new(IncidentType::Police, IncidentSeverity::Low, 0.0_f64.to_bits(), 0.0_f64.to_bits());
    incident.description = Some("  Crash  ".into());
    let incident = incident.sanitize();
    assert_eq!(incident.description.as_deref(), Some("Crash"));
    let mut incident = incident;
    incident.description = Some("d".repeat(501));
    assert!(incident
        .validate(None)
        .unwrap_err()
        .contains("Description exceeds maximum length of 500 characters"));
}

#[test]
fn incident_attachment_errors_name_the_index() {
    let mut incident =
        MapkyAppIncident::new(IncidentType::Police, IncidentSeverity::Low, 0.0_f64.to_bits(), 0.0_f64.to_bits());
    incident.attachments = Some(vec![
        "pubky://user123/pub/mapky.app/files/0034A0X7NJ52G".into(),
        "https://example.com/x.jpg".into(),
    ]);
    assert!(incident.validate(None).unwrap_err().contains("Attachment at index 1: "));
    incident.attachments = Some(vec![format!("pubky://{}", "a".repeat(300))]);
    assert!(incident
        .validate(None)
        .unwrap_err()
        .contains("Attachment URL at index 0 exceeds maximum length"));
}

#[test]
fn incident_latitude_error_message() {
    let incident =
        MapkyAppIncident::new(IncidentType::Accident, IncidentSeverity::High, (-91.0_f64).to_bits(), 0.0_f64.to_bits());
    assert!(incident.validate(None).unwrap_err().contains("Latitude"));
}
