//! User-created routes (hiking, cycling, driving, ...): waypoints, optional
//! OSM way links, control points, navigation steps, aggregates and a snapped
//! geometry.
//!
//! URI: `/pub/mapky.app/routes/:route_id`
use vstd::prelude::*;

use crate::checks::{
    check_id, first_failure, id_error, is_id_verdict, numbered_message, opt_sanitized_url,
    opt_sanitized_urls, opt_text, opt_texts, opt_trimmed, sanitize_opt_url, sanitize_opt_urls,
    texts, trim_opt,
};
use crate::constants::{
    MAPKY_PATH, MAX_ROUTE_CONTROL_POINTS, MAX_ROUTE_COSTING_LENGTH, MAX_ROUTE_DESCRIPTION_LENGTH,
    MAX_ROUTE_ENGINE_LENGTH, MAX_ROUTE_INSTRUCTION_LENGTH, MAX_ROUTE_NAME_LENGTH,
    MAX_ROUTE_POLYLINE_LENGTH, MAX_ROUTE_WAYPOINTS, MAX_WAYPOINT_NAME_LENGTH, MIN_WAYPOINTS,
    PUBLIC_PATH,
};
use crate::float::{float_is_negative, is_negative};
use crate::ids::{create_timestamp_id, is_timestamp_id_shape};
use crate::message::{failure, text, ErrorMessage, Piece};
use crate::text::{char_count, decimal, is_blank, is_blank_str, push_decimal, trim, trimmed};
use crate::url::{parse_url, url_parse};
use crate::validation::{
    coordinates_error, osm_way_url_error, validate_coordinates, validate_osm_way_url,
};
use vstd::utf8::encode_utf8;

verus! {

/// Kind of activity a route is made for.
#[derive(Clone, Copy, Debug, PartialEq, Eq, Structural)]
pub enum RouteActivityType {
    Hiking,
    Cycling,
    Running,
    Walking,
    Driving,
    Skiing,
    Other,
}

/// A geographic waypoint. Coordinates and elevation are binary64 values
/// carried by their IEEE-754 bit patterns.
#[derive(Clone, Debug)]
pub struct Waypoint {
    pub lat: u64,
    pub lon: u64,
    pub ele: Option<u64>,
    pub name: Option<String>,
}

/// A waypoint as the contracts see it.
pub struct WaypointView {
    pub lat: u64,
    pub lon: u64,
    pub ele: Option<u64>,
    pub name: Option<Seq<char>>,
}

impl View for Waypoint {
    type V = WaypointView;

    open spec fn view(&self) -> WaypointView {
        WaypointView { lat: self.lat, lon: self.lon, ele: self.ele, name: opt_text(self.name) }
    }
}

impl Waypoint {
    /// An unnamed waypoint.
    pub fn new(lat: u64, lon: u64, ele: Option<u64>) -> (w: Waypoint)
        ensures
            w@ == (WaypointView { lat, lon, ele, name: None }),
    {
        Waypoint { lat, lon, ele, name: None }
    }
}

/// A navigation instruction. The distance is a binary64 value carried by its
/// IEEE-754 bit pattern.
#[derive(Clone, Debug)]
pub struct RouteStep {
    pub instruction: String,
    pub distance_m: u64,
    /// Position of the waypoint the step starts from.
    pub waypoint_index: usize,
}

/// A step as the contracts see it.
pub struct RouteStepView {
    pub instruction: Seq<char>,
    pub distance_m: u64,
    pub waypoint_index: usize,
}

impl View for RouteStep {
    type V = RouteStepView;

    open spec fn view(&self) -> RouteStepView {
        RouteStepView {
            instruction: self.instruction@,
            distance_m: self.distance_m,
            waypoint_index: self.waypoint_index,
        }
    }
}

/// Snapped geometry, computed by a routing engine or imported.
#[derive(Clone, Debug)]
pub struct RouteGeometry {
    /// Encoded polyline.
    pub polyline: String,
    /// Source engine, such as "valhalla", "manual" or "gpx".
    pub engine: String,
    /// Engine-specific costing profile.
    pub costing: Option<String>,
    /// When the geometry was computed, UNIX milliseconds.
    pub computed_at: i64,
}

/// A geometry as the contracts see it.
pub struct RouteGeometryView {
    pub polyline: Seq<char>,
    pub engine: Seq<char>,
    pub costing: Option<Seq<char>>,
    pub computed_at: i64,
}

impl View for RouteGeometry {
    type V = RouteGeometryView;

    open spec fn view(&self) -> RouteGeometryView {
        RouteGeometryView {
            polyline: self.polyline@,
            engine: self.engine@,
            costing: opt_text(self.costing),
            computed_at: self.computed_at,
        }
    }
}

/// A user-created route. Measurements are binary64 values carried by their
/// IEEE-754 bit patterns.
#[derive(Clone, Debug)]
pub struct MapkyAppRoute {
    pub name: String,
    pub description: Option<String>,
    pub activity: RouteActivityType,
    pub waypoints: Vec<Waypoint>,
    /// OSM Way URLs the route follows.
    pub osm_ways: Option<Vec<String>>,
    pub control_points: Option<Vec<Waypoint>>,
    pub steps: Option<Vec<RouteStep>>,
    pub distance_m: Option<u64>,
    pub elevation_gain_m: Option<u64>,
    pub elevation_loss_m: Option<u64>,
    pub estimated_duration_s: Option<i64>,
    pub image_uri: Option<String>,
    pub geometry: Option<RouteGeometry>,
}

/// A route as the contracts see it.
pub struct RouteView {
    pub name: Seq<char>,
    pub description: Option<Seq<char>>,
    pub activity: RouteActivityType,
    pub waypoints: Seq<WaypointView>,
    pub osm_ways: Option<Seq<Seq<char>>>,
    pub control_points: Option<Seq<WaypointView>>,
    pub steps: Option<Seq<RouteStepView>>,
    pub distance_m: Option<u64>,
    pub elevation_gain_m: Option<u64>,
    pub elevation_loss_m: Option<u64>,
    pub estimated_duration_s: Option<i64>,
    pub image_uri: Option<Seq<char>>,
    pub geometry: Option<RouteGeometryView>,
}

/// Views of a list of waypoints.
pub open spec fn waypoint_views(v: Vec<Waypoint>) -> Seq<WaypointView> {
    v@.map_values(|w: Waypoint| w@)
}

impl View for MapkyAppRoute {
    type V = RouteView;

    open spec fn view(&self) -> RouteView {
        RouteView {
            name: self.name@,
            description: opt_text(self.description),
            activity: self.activity,
            waypoints: waypoint_views(self.waypoints),
            osm_ways: opt_texts(self.osm_ways),
            control_points: match self.control_points {
                Some(c) => Some(waypoint_views(c)),
                None => None,
            },
            steps: match self.steps {
                Some(s) => Some(s@.map_values(|x: RouteStep| x@)),
                None => None,
            },
            distance_m: self.distance_m,
            elevation_gain_m: self.elevation_gain_m,
            elevation_loss_m: self.elevation_loss_m,
            estimated_duration_s: self.estimated_duration_s,
            image_uri: opt_text(self.image_uri),
            geometry: match self.geometry {
                Some(g) => Some(g@),
                None => None,
            },
        }
    }
}

/// What `sanitize` makes of a route: name and description trimmed, image
/// URI and OSM way URLs normalized.
pub open spec fn sanitized_route(r: RouteView) -> RouteView {
    RouteView {
        name: trimmed(r.name),
        description: opt_trimmed(r.description),
        image_uri: opt_sanitized_url(r.image_uri),
        osm_ways: opt_sanitized_urls(r.osm_ways),
        ..r
    }
}

/// Name and description: the name not blank and at most 200 characters, the
/// description at most 10000.
pub open spec fn route_text_error(name: Seq<char>, description: Option<Seq<char>>) -> Option<
    Seq<Piece>,
> {
    if is_blank(name) {
        Some(text("Validation Error: Route name cannot be empty"@))
    } else if name.len() > MAX_ROUTE_NAME_LENGTH {
        Some(text("Validation Error: Route name exceeds maximum length of 200 characters"@))
    } else if description matches Some(d) && d.len() > MAX_ROUTE_DESCRIPTION_LENGTH {
        Some(text("Validation Error: Description exceeds maximum length of 10000 characters"@))
    } else {
        None
    }
}

/// The failure of waypoint `i`: its coordinates, then its name has at most
/// 100 characters.
pub open spec fn waypoint_error(w: WaypointView, i: int) -> Option<Seq<Piece>> {
    if coordinates_error(w.lat, w.lon) is Some {
        Some(
            text("Validation Error: Waypoint "@ + decimal(i as nat) + ": "@) + coordinates_error(
                w.lat,
                w.lon,
            ).unwrap(),
        )
    } else if w.name matches Some(n) && n.len() > MAX_WAYPOINT_NAME_LENGTH {
        Some(
            text(
                "Validation Error: Waypoint "@ + decimal(i as nat)
                    + " name exceeds maximum length of 100 characters"@,
            ),
        )
    } else {
        None
    }
}

/// The waypoint checks of a list.
pub open spec fn waypoint_checks(w: Seq<WaypointView>) -> spec_fn(int) -> Option<Seq<Piece>> {
    |i: int| waypoint_error(w[i], i)
}

/// Waypoints: 2 to 10000 of them, then the first that fails.
pub open spec fn waypoints_error(w: Seq<WaypointView>) -> Option<Seq<Piece>> {
    if w.len() < MIN_WAYPOINTS {
        Some(text("Validation Error: Route must have at least 2 waypoints"@))
    } else if w.len() > MAX_ROUTE_WAYPOINTS {
        Some(text("Validation Error: Route exceeds maximum of 10000 waypoints"@))
    } else {
        first_failure(waypoint_checks(w), 0, w.len() as int)
    }
}

/// The failure of control point `i`: its coordinates.
pub open spec fn control_point_error(w: WaypointView, i: int) -> Option<Seq<Piece>> {
    if coordinates_error(w.lat, w.lon) is Some {
        Some(
            text("Validation Error: control_points["@ + decimal(i as nat) + "]: "@)
                + coordinates_error(w.lat, w.lon).unwrap(),
        )
    } else {
        None
    }
}

/// The control point checks of a list.
pub open spec fn control_point_checks(w: Seq<WaypointView>) -> spec_fn(int) -> Option<Seq<Piece>> {
    |i: int| control_point_error(w[i], i)
}

/// Control points, when given: at most 500, at least 2, then the first that
/// fails.
pub open spec fn control_points_error(c: Option<Seq<WaypointView>>) -> Option<Seq<Piece>> {
    match c {
        None => None,
        Some(w) => if w.len() > MAX_ROUTE_CONTROL_POINTS {
            Some(text("Validation Error: Route exceeds maximum of 500 control points"@))
        } else if w.len() < MIN_WAYPOINTS {
            Some(text("Validation Error: control_points must have at least 2 points"@))
        } else {
            first_failure(control_point_checks(w), 0, w.len() as int)
        },
    }
}

/// The failure of step `i` of a route with `n` waypoints: the instruction
/// has at most 500 characters, the distance is not negative, the waypoint
/// index is below `n`.
pub open spec fn step_error(s: RouteStepView, i: int, n: nat) -> Option<Seq<Piece>> {
    if s.instruction.len() > MAX_ROUTE_INSTRUCTION_LENGTH {
        Some(
            text(
                "Validation Error: steps["@ + decimal(i as nat)
                    + "] instruction exceeds maximum length of 500 characters"@,
            ),
        )
    } else if float_is_negative(s.distance_m) {
        Some(
            text(
                "Validation Error: steps["@ + decimal(i as nat) + "] distance_m cannot be negative"@,
            ),
        )
    } else if s.waypoint_index >= n {
        Some(
            text(
                "Validation Error: steps["@ + decimal(i as nat) + "] waypoint_index "@ + decimal(
                    s.waypoint_index as nat,
                ) + " out of bounds (route has "@ + decimal(n) + " waypoints)"@,
            ),
        )
    } else {
        None
    }
}

/// The step checks of a list, for a route with `n` waypoints.
pub open spec fn step_checks(s: Seq<RouteStepView>, n: nat) -> spec_fn(int) -> Option<Seq<Piece>> {
    |i: int| step_error(s[i], i, n)
}

/// Steps, when given: the first that fails.
pub open spec fn steps_error(s: Option<Seq<RouteStepView>>, n: nat) -> Option<Seq<Piece>> {
    match s {
        None => None,
        Some(v) => first_failure(step_checks(v, n), 0, v.len() as int),
    }
}

/// The failure of OSM way link `i`: it must be an OSM Way URL.
pub open spec fn osm_way_link_error(url: Seq<char>, i: int) -> Option<Seq<Piece>> {
    if osm_way_url_error(url) is Some {
        Some(
            text("Validation Error: osm_ways["@ + decimal(i as nat) + "]: "@) + osm_way_url_error(
                url,
            ).unwrap(),
        )
    } else {
        None
    }
}

/// The OSM way checks of a list.
pub open spec fn osm_way_checks(w: Seq<Seq<char>>) -> spec_fn(int) -> Option<Seq<Piece>> {
    |i: int| osm_way_link_error(w[i], i)
}

/// OSM way links, when given: the first that fails.
pub open spec fn osm_ways_error(w: Option<Seq<Seq<char>>>) -> Option<Seq<Piece>> {
    match w {
        None => None,
        Some(v) => first_failure(osm_way_checks(v), 0, v.len() as int),
    }
}

/// The image URI, when given, parses as a URL; the measurements are not
/// negative.
pub open spec fn route_measure_error(r: RouteView) -> Option<Seq<Piece>> {
    if r.image_uri matches Some(u) && url_parse(u) is Err {
        Some(text("Validation Error: Invalid image URI: "@ + r.image_uri.unwrap()))
    } else if r.distance_m matches Some(d) && float_is_negative(d) {
        Some(text("Validation Error: distance_m cannot be negative"@))
    } else if r.elevation_gain_m matches Some(g) && float_is_negative(g) {
        Some(text("Validation Error: elevation_gain_m cannot be negative"@))
    } else if r.elevation_loss_m matches Some(l) && float_is_negative(l) {
        Some(text("Validation Error: elevation_loss_m cannot be negative"@))
    } else if r.estimated_duration_s matches Some(d) && d < 0 {
        Some(text("Validation Error: estimated_duration_s cannot be negative"@))
    } else {
        None
    }
}

/// The geometry, when given: a polyline that is not empty and has at most
/// 200000 bytes, an engine name that is not blank and has at most 32
/// characters, a costing of at most 32 characters, a time that is not
/// negative.
pub open spec fn geometry_error(g: Option<RouteGeometryView>) -> Option<Seq<Piece>> {
    match g {
        None => None,
        Some(g) => if g.polyline.len() == 0 {
            Some(text("Validation Error: geometry.polyline cannot be empty"@))
        } else if encode_utf8(g.polyline).len() > MAX_ROUTE_POLYLINE_LENGTH {
            Some(
                text("Validation Error: geometry.polyline exceeds maximum length of 200000 bytes"@),
            )
        } else if is_blank(g.engine) {
            Some(text("Validation Error: geometry.engine cannot be empty"@))
        } else if g.engine.len() > MAX_ROUTE_ENGINE_LENGTH {
            Some(text("Validation Error: geometry.engine exceeds maximum length of 32 characters"@))
        } else if g.costing matches Some(c) && c.len() > MAX_ROUTE_COSTING_LENGTH {
            Some(text("Validation Error: geometry.costing exceeds maximum length of 32 characters"@))
        } else if g.computed_at < 0 {
            Some(text("Validation Error: geometry.computed_at cannot be negative"@))
        } else {
            None
        },
    }
}

/// The first rule a route breaks: the identifier (when checked), name and
/// description, waypoints, control points, steps, OSM way links, image URI
/// and measurements, geometry.
pub open spec fn route_error(r: RouteView, id_check: Option<Result<(), String>>) -> Option<
    Seq<Piece>,
> {
    if id_error(id_check) is Some {
        id_error(id_check)
    } else if route_text_error(r.name, r.description) is Some {
        route_text_error(r.name, r.description)
    } else if waypoints_error(r.waypoints) is Some {
        waypoints_error(r.waypoints)
    } else if control_points_error(r.control_points) is Some {
        control_points_error(r.control_points)
    } else if steps_error(r.steps, r.waypoints.len()) is Some {
        steps_error(r.steps, r.waypoints.len())
    } else if osm_ways_error(r.osm_ways) is Some {
        osm_ways_error(r.osm_ways)
    } else if route_measure_error(r) is Some {
        route_measure_error(r)
    } else {
        geometry_error(r.geometry)
    }
}

fn validate_route_texts(name: &String, description: &Option<String>) -> (r: Result<(), ErrorMessage>)
    ensures
        failure(r) == route_text_error(name@, opt_text(*description)),
{
    if is_blank_str(name.as_str()) {
        return Err(ErrorMessage::from_str("Validation Error: Route name cannot be empty"));
    }
    if char_count(name.as_str()) > MAX_ROUTE_NAME_LENGTH {
        return Err(
            ErrorMessage::from_str(
                "Validation Error: Route name exceeds maximum length of 200 characters",
            ),
        );
    }
    if let Some(d) = description {
        if char_count(d.as_str()) > MAX_ROUTE_DESCRIPTION_LENGTH {
            return Err(
                ErrorMessage::from_str(
                    "Validation Error: Description exceeds maximum length of 10000 characters",
                ),
            );
        }
    }
    Ok(())
}

fn validate_waypoint(w: &Waypoint, i: usize) -> (r: Result<(), ErrorMessage>)
    ensures
        failure(r) == waypoint_error(w@, i as int),
{
    if let Err(e) = validate_coordinates(w.lat, w.lon) {
        let mut m = numbered_message("Validation Error: Waypoint ", i as u64, ": ");
        m.append(e);
        return Err(m);
    }
    if let Some(n) = &w.name {
        if char_count(n.as_str()) > MAX_WAYPOINT_NAME_LENGTH {
            return Err(
                numbered_message(
                    "Validation Error: Waypoint ",
                    i as u64,
                    " name exceeds maximum length of 100 characters",
                ),
            );
        }
    }
    Ok(())
}

fn validate_waypoints(w: &Vec<Waypoint>) -> (r: Result<(), ErrorMessage>)
    ensures
        failure(r) == waypoints_error(waypoint_views(*w)),
{
    let ghost v = waypoint_views(*w);
    let ghost f = waypoint_checks(v);
    if w.len() < MIN_WAYPOINTS {
        return Err(
            ErrorMessage::from_str("Validation Error: Route must have at least 2 waypoints"),
        );
    }
    if w.len() > MAX_ROUTE_WAYPOINTS {
        return Err(
            ErrorMessage::from_str("Validation Error: Route exceeds maximum of 10000 waypoints"),
        );
    }
    let n: usize = w.len();
    let mut i: usize = 0;
    assert(v.len() == n);
    while i < n
        invariant
            n == w@.len(),
            MIN_WAYPOINTS <= n <= MAX_ROUTE_WAYPOINTS,
            v.len() == n,
            v == waypoint_views(*w),
            f == waypoint_checks(v),
            i <= n,
            first_failure(f, 0, n as int) == first_failure(f, i as int, n as int),
        decreases n - i,
    {
        let r = validate_waypoint(&w[i], i);
        assert(v[i as int] == w@[i as int]@);
        assert(f(i as int) == waypoint_error(v[i as int], i as int));
        if r.is_err() {
            assert(first_failure(f, i as int, n as int) == f(i as int));
            return r;
        }
        i = i + 1;
    }
    Ok(())
}

fn validate_control_point(w: &Waypoint, i: usize) -> (r: Result<(), ErrorMessage>)
    ensures
        failure(r) == control_point_error(w@, i as int),
{
    if let Err(e) = validate_coordinates(w.lat, w.lon) {
        let mut m = numbered_message("Validation Error: control_points[", i as u64, "]: ");
        m.append(e);
        return Err(m);
    }
    Ok(())
}

fn validate_control_points(c: &Option<Vec<Waypoint>>) -> (r: Result<(), ErrorMessage>)
    ensures
        failure(r) == control_points_error(
            match *c {
                Some(w) => Some(waypoint_views(w)),
                None => None,
            },
        ),
{
    match c {
        None => Ok(()),
        Some(w) => validate_control_point_list(w),
    }
}

fn validate_control_point_list(w: &Vec<Waypoint>) -> (r: Result<(), ErrorMessage>)
    ensures
        failure(r) == control_points_error(Some(waypoint_views(*w))),
{
    let ghost v = waypoint_views(*w);
    let ghost f = control_point_checks(v);
    if w.len() > MAX_ROUTE_CONTROL_POINTS {
        return Err(
            ErrorMessage::from_str("Validation Error: Route exceeds maximum of 500 control points"),
        );
    }
    if w.len() < MIN_WAYPOINTS {
        return Err(
            ErrorMessage::from_str("Validation Error: control_points must have at least 2 points"),
        );
    }
    let n: usize = w.len();
    let mut i: usize = 0;
    assert(v.len() == n);
    while i < n
        invariant
            n == w@.len(),
            MIN_WAYPOINTS <= n <= MAX_ROUTE_CONTROL_POINTS,
            v.len() == n,
            v == waypoint_views(*w),
            f == control_point_checks(v),
            i <= n,
            first_failure(f, 0, n as int) == first_failure(f, i as int, n as int),
        decreases n - i,
    {
        let r = validate_control_point(&w[i], i);
        assert(v[i as int] == w@[i as int]@);
        assert(f(i as int) == control_point_error(v[i as int], i as int));
        if r.is_err() {
            assert(first_failure(f, i as int, n as int) == f(i as int));
            return r;
        }
        i = i + 1;
    }
    Ok(())
}

fn validate_step(s: &RouteStep, i: usize, n: usize) -> (r: Result<(), ErrorMessage>)
    ensures
        failure(r) == step_error(s@, i as int, n as nat),
{
    if char_count(s.instruction.as_str()) > MAX_ROUTE_INSTRUCTION_LENGTH {
        return Err(
            numbered_message(
                "Validation Error: steps[",
                i as u64,
                "] instruction exceeds maximum length of 500 characters",
            ),
        );
    }
    if is_negative(s.distance_m) {
        return Err(
            numbered_message("Validation Error: steps[", i as u64, "] distance_m cannot be negative"),
        );
    }
    if s.waypoint_index >= n {
        let mut t = String::from_str("Validation Error: steps[");
        push_decimal(&mut t, i as u64);
        t.append("] waypoint_index ");
        push_decimal(&mut t, s.waypoint_index as u64);
        t.append(" out of bounds (route has ");
        push_decimal(&mut t, n as u64);
        t.append(" waypoints)");
        return Err(ErrorMessage::from_text(t));
    }
    Ok(())
}

fn validate_steps(steps: &Option<Vec<RouteStep>>, waypoint_count: usize) -> (r: Result<
    (),
    ErrorMessage,
>)
    ensures
        failure(r) == steps_error(
            match *steps {
                Some(s) => Some(s@.map_values(|x: RouteStep| x@)),
                None => None,
            },
            waypoint_count as nat,
        ),
{
    match steps {
        None => Ok(()),
        Some(s) => validate_step_list(s, waypoint_count),
    }
}

fn validate_step_list(s: &Vec<RouteStep>, waypoint_count: usize) -> (r: Result<(), ErrorMessage>)
    ensures
        failure(r) == steps_error(Some(s@.map_values(|x: RouteStep| x@)), waypoint_count as nat),
{
    let ghost v = s@.map_values(|x: RouteStep| x@);
    let ghost f = step_checks(v, waypoint_count as nat);
    let n: usize = s.len();
    let mut i: usize = 0;
    assert(v.len() == n);
    while i < n
        invariant
            n == s@.len(),
            v.len() == n,
            v == s@.map_values(|x: RouteStep| x@),
            f == step_checks(v, waypoint_count as nat),
            i <= n,
            first_failure(f, 0, n as int) == first_failure(f, i as int, n as int),
        decreases n - i,
    {
        let r = validate_step(&s[i], i, waypoint_count);
        assert(v[i as int] == s@[i as int]@);
        assert(f(i as int) == step_error(v[i as int], i as int, waypoint_count as nat));
        if r.is_err() {
            assert(first_failure(f, i as int, n as int) == f(i as int));
            return r;
        }
        i = i + 1;
    }
    Ok(())
}

fn validate_osm_way_link(url: &str, i: usize) -> (r: Result<(), ErrorMessage>)
    ensures
        failure(r) == osm_way_link_error(url@, i as int),
{
    if let Err(e) = validate_osm_way_url(url) {
        let mut m = numbered_message("Validation Error: osm_ways[", i as u64, "]: ");
        m.append(e);
        return Err(m);
    }
    Ok(())
}

fn validate_osm_ways(ways: &Option<Vec<String>>) -> (r: Result<(), ErrorMessage>)
    ensures
        failure(r) == osm_ways_error(opt_texts(*ways)),
{
    match ways {
        None => Ok(()),
        Some(w) => validate_osm_way_list(w),
    }
}

fn validate_osm_way_list(w: &Vec<String>) -> (r: Result<(), ErrorMessage>)
    ensures
        failure(r) == osm_ways_error(Some(texts(*w))),
{
    let ghost v = texts(*w);
    let ghost f = osm_way_checks(v);
    let n: usize = w.len();
    let mut i: usize = 0;
    assert(v.len() == n);
    while i < n
        invariant
            n == w@.len(),
            v.len() == n,
            v == texts(*w),
            f == osm_way_checks(v),
            i <= n,
            first_failure(f, 0, n as int) == first_failure(f, i as int, n as int),
        decreases n - i,
    {
        let r = validate_osm_way_link(w[i].as_str(), i);
        assert(v[i as int] == w@[i as int]@);
        assert(f(i as int) == osm_way_link_error(v[i as int], i as int));
        if r.is_err() {
            assert(first_failure(f, i as int, n as int) == f(i as int));
            return r;
        }
        i = i + 1;
    }
    Ok(())
}

fn validate_geometry(g: &Option<RouteGeometry>) -> (r: Result<(), ErrorMessage>)
    ensures
        failure(r) == geometry_error(
            match *g {
                Some(x) => Some(x@),
                None => None,
            },
        ),
{
    match g {
        None => Ok(()),
        Some(g) => validate_geometry_fields(g),
    }
}

fn validate_geometry_fields(g: &RouteGeometry) -> (r: Result<(), ErrorMessage>)
    ensures
        failure(r) == geometry_error(Some(g@)),
{
    if char_count(g.polyline.as_str()) == 0 {
        return Err(ErrorMessage::from_str("Validation Error: geometry.polyline cannot be empty"));
    }
    if g.polyline.as_str().as_bytes().len() > MAX_ROUTE_POLYLINE_LENGTH {
        return Err(
            ErrorMessage::from_str(
                "Validation Error: geometry.polyline exceeds maximum length of 200000 bytes",
            ),
        );
    }
    if is_blank_str(g.engine.as_str()) {
        return Err(ErrorMessage::from_str("Validation Error: geometry.engine cannot be empty"));
    }
    if char_count(g.engine.as_str()) > MAX_ROUTE_ENGINE_LENGTH {
        return Err(
            ErrorMessage::from_str(
                "Validation Error: geometry.engine exceeds maximum length of 32 characters",
            ),
        );
    }
    if let Some(c) = &g.costing {
        if char_count(c.as_str()) > MAX_ROUTE_COSTING_LENGTH {
            return Err(
                ErrorMessage::from_str(
                    "Validation Error: geometry.costing exceeds maximum length of 32 characters",
                ),
            );
        }
    }
    if g.computed_at < 0 {
        return Err(
            ErrorMessage::from_str("Validation Error: geometry.computed_at cannot be negative"),
        );
    }
    Ok(())
}

impl MapkyAppRoute {
    /// A route of the given name, activity and waypoints, with no optional
    /// field set, sanitized.
    pub fn new(name: String, activity: RouteActivityType, waypoints: Vec<Waypoint>) -> (r:
        MapkyAppRoute)
        ensures
            r@ == sanitized_route(
                RouteView {
                    name: name@,
                    description: None,
                    activity,
                    waypoints: waypoint_views(waypoints),
                    osm_ways: None,
                    control_points: None,
                    steps: None,
                    distance_m: None,
                    elevation_gain_m: None,
                    elevation_loss_m: None,
                    estimated_duration_s: None,
                    image_uri: None,
                    geometry: None,
                },
            ),
    {
        let route = MapkyAppRoute {
            name,
            description: None,
            activity,
            waypoints,
            osm_ways: None,
            control_points: None,
            steps: None,
            distance_m: None,
            elevation_gain_m: None,
            elevation_loss_m: None,
            estimated_duration_s: None,
            image_uri: None,
            geometry: None,
        };
        route.sanitize()
    }

    /// A fresh timestamp identifier.
    pub fn create_id(&self) -> (id: String)
        ensures
            is_timestamp_id_shape(id@),
    {
        create_timestamp_id()
    }

    /// The path of the route with identifier `id`.
    pub fn create_path(id: &str) -> (p: String)
        ensures
            p@ == PUBLIC_PATH@ + MAPKY_PATH@ + "routes/"@ + id@,
    {
        let mut p = String::from_str(PUBLIC_PATH);
        p.append(MAPKY_PATH);
        p.append("routes/");
        p.append(id);
        p
    }

    /// Trims name and description, normalizes the image URI and the OSM
    /// way URLs.
    pub fn sanitize(self) -> (r: MapkyAppRoute)
        ensures
            r@ == sanitized_route(self@),
    {
        let name = trim(self.name.as_str());
        let description = trim_opt(self.description);
        let image_uri = sanitize_opt_url(self.image_uri);
        let osm_ways = sanitize_opt_urls(self.osm_ways);
        MapkyAppRoute {
            name,
            description,
            activity: self.activity,
            waypoints: self.waypoints,
            osm_ways,
            control_points: self.control_points,
            steps: self.steps,
            distance_m: self.distance_m,
            elevation_gain_m: self.elevation_gain_m,
            elevation_loss_m: self.elevation_loss_m,
            estimated_duration_s: self.estimated_duration_s,
            image_uri,
            geometry: self.geometry,
        }
    }

    fn validate_measures(&self) -> (r: Result<(), ErrorMessage>)
        ensures
            failure(r) == route_measure_error(self@),
    {
        if let Some(u) = &self.image_uri {
            if parse_url(u.as_str()).is_err() {
                let mut t = String::from_str("Validation Error: Invalid image URI: ");
                t.append(u.as_str());
                return Err(ErrorMessage::from_text(t));
            }
        }
        if let Some(d) = self.distance_m {
            if is_negative(d) {
                return Err(
                    ErrorMessage::from_str("Validation Error: distance_m cannot be negative"),
                );
            }
        }
        if let Some(g) = self.elevation_gain_m {
            if is_negative(g) {
                return Err(
                    ErrorMessage::from_str("Validation Error: elevation_gain_m cannot be negative"),
                );
            }
        }
        if let Some(l) = self.elevation_loss_m {
            if is_negative(l) {
                return Err(
                    ErrorMessage::from_str("Validation Error: elevation_loss_m cannot be negative"),
                );
            }
        }
        if let Some(d) = self.estimated_duration_s {
            if d < 0 {
                return Err(
                    ErrorMessage::from_str(
                        "Validation Error: estimated_duration_s cannot be negative",
                    ),
                );
            }
        }
        Ok(())
    }

    /// Checks the route, given the outcome of the identifier check.
    pub fn validate_with(&self, id_check: Option<Result<(), String>>) -> (r: Result<
        (),
        ErrorMessage,
    >)
        ensures
            failure(r) == route_error(self@, id_check),
    {
        if let Some(Err(e)) = id_check {
            return Err(ErrorMessage::from_text(e));
        }
        validate_route_texts(&self.name, &self.description)?;
        validate_waypoints(&self.waypoints)?;
        validate_control_points(&self.control_points)?;
        assert(self@.waypoints.len() == self.waypoints.len());
        validate_steps(&self.steps, self.waypoints.len())?;
        validate_osm_ways(&self.osm_ways)?;
        self.validate_measures()?;
        validate_geometry(&self.geometry)
    }

    /// Checks the route, and the identifier `id` when given.
    pub fn validate(&self, id: Option<&str>) -> (r: Result<(), ErrorMessage>)
        ensures
            exists|v: Option<Result<(), String>>|
                #[trigger] is_id_verdict(id, v) && failure(r) == route_error(self@, v),
    {
        let v = check_id(id);
        self.validate_with(v)
    }
}

} // verus!
