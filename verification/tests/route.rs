use mapky_app_specs::constants::MAX_ROUTE_POLYLINE_LENGTH;
use mapky_app_specs::message::ErrorMessage;
use mapky_app_specs::models::object::MapkyAppObject;
use mapky_app_specs::models::route::{
    MapkyAppRoute, RouteActivityType, RouteGeometry, RouteStep, Waypoint,
};

fn activity_named(s: &str) -> RouteActivityType {
    match s {
        "walking" => RouteActivityType::Walking,
        "running" => RouteActivityType::Running,
        "hiking" => RouteActivityType::Hiking,
        "cycling" => RouteActivityType::Cycling,
        "driving" => RouteActivityType::Driving,
        "skiing" => RouteActivityType::Skiing,
        _ => RouteActivityType::Other,
    }
}

fn waypoint_of(v: &serde_json::Value) -> Waypoint {
    Waypoint {
        lat: v["lat"].as_f64().unwrap().to_bits(),
        lon: v["lon"].as_f64().unwrap().to_bits(),
        ele: v["ele"].as_f64().map(f64::to_bits),
        name: v["name"].as_str().map(String::from),
    }
}

fn strings_of(v: &serde_json::Value) -> Option<Vec<String>> {
    v.as_array().map(|a| a.iter().map(|x| x.as_str().unwrap().to_string()).collect())
}

/// Decodes a route blob field by field and turns it into an object stored
/// under `routes`.
fn route_try_from(blob: &[u8], id: &str) -> Result<MapkyAppRoute, ErrorMessage> {
    let v: serde_json::Value = serde_json::from_slice(blob).unwrap();
    let route = MapkyAppRoute {
        name: v["name"].as_str().unwrap().to_string(),
        description: v["description"].as_str().map(String::from),
        activity: activity_named(v["activity"].as_str().unwrap()),
        waypoints: v["waypoints"].as_array().unwrap().iter().map(waypoint_of).collect(),
        osm_ways: strings_of(&v["osm_ways"]),
        control_points: v["control_points"]
            .as_array()
            .map(|a| a.iter().map(waypoint_of).collect()),
        steps: None,
        distance_m: v["distance_m"].as_f64().map(f64::to_bits),
        elevation_gain_m: v["elevation_gain_m"].as_f64().map(f64::to_bits),
        elevation_loss_m: v["elevation_loss_m"].as_f64().map(f64::to_bits),
        estimated_duration_s: v["estimated_duration_s"].as_i64(),
        image_uri: v["image_uri"].as_str().map(String::from),
        geometry: None,
    };
    match MapkyAppObject::from_path("routes", Ok(MapkyAppObject::Route(route)), id)? {
        MapkyAppObject::Route(r) => Ok(r),
        other => panic!("expected a route, got {:?}", other),
    }
}

fn test_waypoints() -> Vec<Waypoint> {
    vec![
        Waypoint::new(47.3769_f64.to_bits(), 8.5417_f64.to_bits(), Some(400.0_f64.to_bits())),
        Waypoint::new(47.3800_f64.to_bits(), 8.5450_f64.to_bits(), Some(420.0_f64.to_bits())),
        Waypoint::new(47.3850_f64.to_bits(), 8.5500_f64.to_bits(), Some(450.0_f64.to_bits())),
    ]
}

#[test]
fn route_test_create_id() {
    let route = MapkyAppRoute::new(
        "Lake Loop".into(),
        RouteActivityType::Hiking,
        test_waypoints(),
    );
    let id = route.create_id();
    assert_eq!(id.len(), 13);
}

#[test]
fn route_test_create_path() {
    let route = MapkyAppRoute::new(
        "Lake Loop".into(),
        RouteActivityType::Cycling,
        test_waypoints(),
    );
    let id = route.create_id();
    let path = MapkyAppRoute::create_path(&id);
    assert!(path.starts_with("/pub/mapky.app/routes/"));
}

#[test]
fn route_test_validate_happy() {
    let route = MapkyAppRoute::new(
        "Lake Loop".into(),
        RouteActivityType::Hiking,
        test_waypoints(),
    );
    let id = route.create_id();
    assert!(route.validate(Some(&id)).is_ok());
}

#[test]
fn route_test_validate_empty_name() {
    let route = MapkyAppRoute::new("".into(), RouteActivityType::Hiking, test_waypoints());
    let id = route.create_id();
    assert!(route.validate(Some(&id)).is_err());
}

#[test]
fn test_validate_too_few_waypoints() {
    let route = MapkyAppRoute::new(
        "Short".into(),
        RouteActivityType::Walking,
        vec![Waypoint::new(0.0_f64.to_bits(), 0.0_f64.to_bits(), None)],
    );
    let id = route.create_id();
    assert!(route.validate(Some(&id)).is_err());
}

#[test]
fn test_validate_invalid_waypoint_coords() {
    let route = MapkyAppRoute::new(
        "Bad Route".into(),
        RouteActivityType::Hiking,
        vec![
            Waypoint::new(0.0_f64.to_bits(), 0.0_f64.to_bits(), None),
            Waypoint::new(91.0_f64.to_bits(), 0.0_f64.to_bits(), None),
        ],
    );
    let id = route.create_id();
    assert!(route.validate(Some(&id)).is_err());
}

#[test]
fn test_validate_osm_ways_must_be_way() {
    let mut route = MapkyAppRoute::new(
        "Linked Route".into(),
        RouteActivityType::Hiking,
        test_waypoints(),
    );
    route.osm_ways = Some(vec!["https://www.openstreetmap.org/node/123".into()]);
    let id = route.create_id();
    let result = route.validate(Some(&id));
    assert!(result.is_err());
    assert!(result.unwrap_err().contains("Way URL"));
}

#[test]
fn test_validate_osm_ways_valid() {
    let mut route = MapkyAppRoute::new(
        "Linked Route".into(),
        RouteActivityType::Cycling,
        test_waypoints(),
    );
    route.osm_ways = Some(vec![
        "https://www.openstreetmap.org/way/123".into(),
        "https://www.openstreetmap.org/way/456".into(),
    ]);
    let id = route.create_id();
    assert!(route.validate(Some(&id)).is_ok());
}

#[test]
fn test_validate_negative_distance() {
    let mut route =
        MapkyAppRoute::new("Route".into(), RouteActivityType::Hiking, test_waypoints());
    route.distance_m = Some((-1.0_f64).to_bits());
    let id = route.create_id();
    assert!(route.validate(Some(&id)).is_err());
}

#[test]
fn test_waypoint_with_name() {
    let mut wp = Waypoint::new(47.0_f64.to_bits(), 8.0_f64.to_bits(), None);
    wp.name = Some("Summit".into());
    let route = MapkyAppRoute::new(
        "Named WP Route".into(),
        RouteActivityType::Hiking,
        vec![wp, Waypoint::new(47.1_f64.to_bits(), 8.1_f64.to_bits(), None)],
    );
    let id = route.create_id();
    assert!(route.validate(Some(&id)).is_ok());
}

#[test]
fn test_waypoint_name_too_long() {
    let mut wp = Waypoint::new(47.0_f64.to_bits(), 8.0_f64.to_bits(), None);
    wp.name = Some("a".repeat(101));
    let route = MapkyAppRoute::new(
        "Route".into(),
        RouteActivityType::Hiking,
        vec![wp, Waypoint::new(47.1_f64.to_bits(), 8.1_f64.to_bits(), None)],
    );
    let id = route.create_id();
    assert!(route.validate(Some(&id)).is_err());
}

#[test]
fn test_validate_control_points() {
    let mut route =
        MapkyAppRoute::new("Route".into(), RouteActivityType::Hiking, test_waypoints());
    route.control_points = Some(vec![
        Waypoint::new(47.0_f64.to_bits(), 8.0_f64.to_bits(), None),
        Waypoint::new(47.1_f64.to_bits(), 8.1_f64.to_bits(), None),
    ]);
    let id = route.create_id();
    assert!(route.validate(Some(&id)).is_ok());
}

#[test]
fn test_validate_control_points_too_few() {
    let mut route =
        MapkyAppRoute::new("Route".into(), RouteActivityType::Hiking, test_waypoints());
    route.control_points = Some(vec![Waypoint::new(47.0_f64.to_bits(), 8.0_f64.to_bits(), None)]);
    let id = route.create_id();
    assert!(route.validate(Some(&id)).is_err());
}

#[test]
fn test_validate_steps() {
    let mut route =
        MapkyAppRoute::new("Route".into(), RouteActivityType::Hiking, test_waypoints());
    route.steps = Some(vec![
        RouteStep {
            instruction: "Head north".into(),
            distance_m: 100.0_f64.to_bits(),
            waypoint_index: 0,
        },
        RouteStep {
            instruction: "Turn right".into(),
            distance_m: 200.0_f64.to_bits(),
            waypoint_index: 1,
        },
    ]);
    let id = route.create_id();
    assert!(route.validate(Some(&id)).is_ok());
}

#[test]
fn test_validate_step_waypoint_index_out_of_bounds() {
    let mut route =
        MapkyAppRoute::new("Route".into(), RouteActivityType::Hiking, test_waypoints());
    route.steps = Some(vec![RouteStep {
        instruction: "Go".into(),
        distance_m: 10.0_f64.to_bits(),
        waypoint_index: 99,
    }]);
    let id = route.create_id();
    let result = route.validate(Some(&id));
    assert!(result.is_err());
    assert!(result.unwrap_err().contains("out of bounds"));
}

#[test]
fn test_validate_step_negative_distance() {
    let mut route =
        MapkyAppRoute::new("Route".into(), RouteActivityType::Hiking, test_waypoints());
    route.steps = Some(vec![RouteStep {
        instruction: "Go".into(),
        distance_m: (-5.0_f64).to_bits(),
        waypoint_index: 0,
    }]);
    let id = route.create_id();
    assert!(route.validate(Some(&id)).is_err());
}

#[test]
fn test_all_activity_types() {
    let types = vec![
        RouteActivityType::Hiking,
        RouteActivityType::Cycling,
        RouteActivityType::Running,
        RouteActivityType::Walking,
        RouteActivityType::Driving,
        RouteActivityType::Skiing,
        RouteActivityType::Other,
    ];
    for activity in types {
        let route = MapkyAppRoute::new("Test".into(), activity, test_waypoints());
        let id = route.create_id();
        assert!(route.validate(Some(&id)).is_ok());
    }
}

#[test]
fn test_geometry_roundtrip() {
    let mut route = MapkyAppRoute::new(
        "With Geometry".into(),
        RouteActivityType::Cycling,
        test_waypoints(),
    );
    route.geometry = Some(RouteGeometry {
        polyline: "kpkfFcueeBgC@".into(),
        engine: "valhalla".into(),
        costing: Some("bicycle".into()),
        computed_at: 1_730_000_000_000,
    });
    let id = route.create_id();
    assert!(route.validate(Some(&id)).is_ok());
}

#[test]
fn test_geometry_validation_empty_polyline() {
    let mut route = MapkyAppRoute::new(
        "Bad Geo".into(),
        RouteActivityType::Hiking,
        test_waypoints(),
    );
    route.geometry = Some(RouteGeometry {
        polyline: String::new(),
        engine: "valhalla".into(),
        costing: None,
        computed_at: 0,
    });
    let id = route.create_id();
    assert!(route.validate(Some(&id)).is_err());
}

#[test]
fn test_geometry_validation_oversize_polyline() {
    let mut route = MapkyAppRoute::new(
        "Big Geo".into(),
        RouteActivityType::Hiking,
        test_waypoints(),
    );
    route.geometry = Some(RouteGeometry {
        polyline: "a".repeat(MAX_ROUTE_POLYLINE_LENGTH + 1),
        engine: "valhalla".into(),
        costing: None,
        computed_at: 0,
    });
    let id = route.create_id();
    let err = route.validate(Some(&id)).unwrap_err();
    assert!(err.contains("polyline"));
}

#[test]
fn test_geometry_validation_empty_engine() {
    let mut route = MapkyAppRoute::new(
        "No Engine".into(),
        RouteActivityType::Hiking,
        test_waypoints(),
    );
    route.geometry = Some(RouteGeometry {
        polyline: "kpkfFcueeB".into(),
        engine: "   ".into(),
        costing: None,
        computed_at: 0,
    });
    let id = route.create_id();
    let err = route.validate(Some(&id)).unwrap_err();
    assert!(err.contains("engine"));
}

#[test]
fn test_geometry_validation_negative_computed_at() {
    let mut route = MapkyAppRoute::new(
        "Negative Time".into(),
        RouteActivityType::Hiking,
        test_waypoints(),
    );
    route.geometry = Some(RouteGeometry {
        polyline: "kpkfFcueeB".into(),
        engine: "valhalla".into(),
        costing: None,
        computed_at: -1,
    });
    let id = route.create_id();
    let err = route.validate(Some(&id)).unwrap_err();
    assert!(err.contains("computed_at"));
}

#[test]
fn route_test_try_from_valid() {
    let json = r#"{
        "name": "Lake Loop",
        "description": "A nice walk around the lake",
        "activity": "hiking",
        "waypoints": [
            {"lat": 47.3769, "lon": 8.5417, "ele": 400.0},
            {"lat": 47.3800, "lon": 8.5450, "ele": 420.0}
        ],
        "osm_ways": null,
        "distance_m": 5000.0,
        "elevation_gain_m": 100.0,
        "elevation_loss_m": 100.0,
        "estimated_duration_s": 3600,
        "image_uri": null
    }"#;
    let route = MapkyAppRoute::new(
        "Lake Loop".into(),
        RouteActivityType::Hiking,
        vec![
            Waypoint::new(47.3769_f64.to_bits(), 8.5417_f64.to_bits(), Some(400.0_f64.to_bits())),
            Waypoint::new(47.3800_f64.to_bits(), 8.5450_f64.to_bits(), Some(420.0_f64.to_bits())),
        ],
    );
    let id = route.create_id();
    let result = route_try_from(json.as_bytes(), &id);
    assert!(result.is_ok());
}

#[test]
fn route_step_error_names_index_and_size() {
    let mut route =
        MapkyAppRoute::new("Route".into(), RouteActivityType::Hiking, test_waypoints());
    route.steps = Some(vec![
        RouteStep { instruction: "Go".into(), distance_m: 0.0_f64.to_bits(), waypoint_index: 2 },
        RouteStep { instruction: "Go".into(), distance_m: 0.0_f64.to_bits(), waypoint_index: 3 },
    ]);
    let err = route.validate(None).unwrap_err();
    assert!(err.contains("steps[1] waypoint_index 3 out of bounds (route has 3 waypoints)"));
}

#[test]
fn route_measure_errors() {
    let mut route =
        MapkyAppRoute::new("Route".into(), RouteActivityType::Hiking, test_waypoints());
    route.estimated_duration_s = Some(-1);
    assert!(route
        .validate(None)
        .unwrap_err()
        .contains("estimated_duration_s cannot be negative"));
    route.estimated_duration_s = Some(0);
    route.elevation_gain_m = Some((-0.5_f64).to_bits());
    assert!(route.validate(None).unwrap_err().contains("elevation_gain_m cannot be negative"));
    route.elevation_gain_m = Some((-0.0_f64).to_bits());
    assert!(route.validate(None).is_ok());
    route.image_uri = Some("nope".into());
    assert!(route.validate(None).unwrap_err().contains("Invalid image URI: nope"));
}

#[test]
fn route_waypoint_limits() {
    let route = MapkyAppRoute::new(
        "Route".into(),
        RouteActivityType::Hiking,
        vec![Waypoint::new(0.0_f64.to_bits(), 0.0_f64.to_bits(), None); 10001],
    );
    assert!(route
        .validate(None)
        .unwrap_err()
        .contains("Route exceeds maximum of 10000 waypoints"));
    let route = MapkyAppRoute::new(
        "Route".into(),
        RouteActivityType::Hiking,
        vec![Waypoint::new(0.0_f64.to_bits(), 0.0_f64.to_bits(), None); 10000],
    );
    assert!(route.validate(None).is_ok());
}

#[test]
fn route_geometry_limits() {
    let mut route =
        MapkyAppRoute::new("Route".into(), RouteActivityType::Hiking, test_waypoints());
    route.geometry = Some(RouteGeometry {
        polyline: "é".repeat(MAX_ROUTE_POLYLINE_LENGTH / 2),
        engine: "e".repeat(32),
        costing: Some("c".repeat(33)),
        computed_at: 0,
    });
    assert!(route
        .validate(None)
        .unwrap_err()
        .contains("geometry.costing exceeds maximum length of 32 characters"));
    route.geometry = Some(RouteGeometry {
        polyline: "é".repeat(MAX_ROUTE_POLYLINE_LENGTH / 2 + 1),
        engine: "valhalla".into(),
        costing: None,
        computed_at: 0,
    });
    assert!(route
        .validate(None)
        .unwrap_err()
        .contains("geometry.polyline exceeds maximum length of 200000 bytes"));
}

#[test]
fn route_sanitize_trims_name_only() {
    let mut wp = Waypoint::new(1.0_f64.to_bits(), 2.0_f64.to_bits(), None);
    wp.name = Some("  Summit ".into());
    let mut route = MapkyAppRoute::new(
        "  Lake Loop  ".into(),
        RouteActivityType::Hiking,
        vec![wp, Waypoint::new(1.0_f64.to_bits(), 2.0_f64.to_bits(), None)],
    );
    assert_eq!(route.name, "Lake Loop");
    route.description = Some(" scenic ".into());
    route.osm_ways = Some(vec![" https://www.openstreetmap.org/way/5 ".into()]);
    route.steps = Some(vec![RouteStep {
        instruction: "  Head north ".into(),
        distance_m: 0.0_f64.to_bits(),
        waypoint_index: 0,
    }]);
    let route = route.sanitize();
    assert_eq!(route.description.as_deref(), Some("scenic"));
    assert_eq!(route.osm_ways.as_ref().unwrap()[0], "https://www.openstreetmap.org/way/5");
    assert_eq!(route.waypoints[0].name.as_deref(), Some("  Summit "));
    assert_eq!(route.steps.unwrap()[0].instruction, "  Head north ");
}
