# mapky_app_specs

Data models of MapKy, a decentralized social layer on OpenStreetMap built on
Pubky: reviews and posts about places, incidents, geo-located media captures,
capture sequences, routes and collections, with the rules that sanitize and
validate them. The rules are verified with Verus.

## Layout

- `src/` — the verified library.
  - `models/` — one module per model: the type, its view for the
    contracts, what `sanitize` makes of it, the first rule it breaks, and the
    functions that build, sanitize and validate it. `object.rs` turns a
    decoded blob stored under a path segment into an object.
  - `validation.rs` — coordinates, headings, Pubky and sequence URIs, OSM
    URLs, timestamps.
  - `builder.rs` — creation of objects for an author, with identifier, path
    and URL.
  - `utils.rs` — `pubky://` URI builders.
  - `properties.rs` — properties of every accepted value.
  - `text.rs`, `message.rs`, `float.rs`, `checks.rs` — text operations,
    error messages, binary64 values by bit pattern, shared checks.
  - `url.rs`, `ids.rs`, `common.rs` — the calls into `url`,
    `pubky_app_specs` and the clock.
- `app/` — the same models with `f64` fields, their JSON form (serde) and
  the `pubky_app_specs` traits, over the library.
- `tests/` — tests of the library.

Binary64 values (coordinates, angles, distances) are carried in the library
by their IEEE-754 bit patterns and compared through the order of their
encodings; error messages keep them as numbers, which `app/` renders.
