//! The MapKy data models, and the object a stored blob turns into.
pub mod collection;
pub mod geo_capture;
pub mod incident;
pub mod location_tag;
pub mod osm_ref;
pub mod post;
pub mod review;
pub mod route;
pub mod sequence;
pub mod object;
