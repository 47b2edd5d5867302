use mapky_app_specs::utils::{
    mapky_base_uri_builder, mapky_collection_uri_builder, mapky_geo_capture_uri_builder,
    mapky_incident_uri_builder, mapky_location_tag_uri_builder, mapky_post_uri_builder,
    mapky_route_uri_builder,
};

#[test]
fn base_uri() {
    assert_eq!(mapky_base_uri_builder("user123".into()), "pubky://user123/pub/mapky.app/");
}

#[test]
fn resource_uris() {
    let a = || "user123".to_string();
    let id = || "0034A0X7NJ52G".to_string();
    assert_eq!(
        mapky_post_uri_builder(a(), id()),
        "pubky://user123/pub/mapky.app/posts/0034A0X7NJ52G"
    );
    assert_eq!(
        mapky_location_tag_uri_builder(a(), id()),
        "pubky://user123/pub/mapky.app/location_tags/0034A0X7NJ52G"
    );
    assert_eq!(
        mapky_collection_uri_builder(a(), id()),
        "pubky://user123/pub/mapky.app/collections/0034A0X7NJ52G"
    );
    assert_eq!(
        mapky_incident_uri_builder(a(), id()),
        "pubky://user123/pub/mapky.app/incidents/0034A0X7NJ52G"
    );
    assert_eq!(
        mapky_geo_capture_uri_builder(a(), id()),
        "pubky://user123/pub/mapky.app/geo_captures/0034A0X7NJ52G"
    );
    assert_eq!(
        mapky_route_uri_builder(a(), id()),
        "pubky://user123/pub/mapky.app/routes/0034A0X7NJ52G"
    );
}
