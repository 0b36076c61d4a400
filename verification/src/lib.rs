//! Client-side data layer for a speedrun-tracking REST service.
//!
//! The library turns loosely structured JSON payloads fetched from the
//! service into strongly typed, ordered and keyed field views.  The heart of
//! the crate is a generic projection engine: every resource kind (user,
//! guest, game, game type, level) is described by a fixed, ordered list of
//! field specifications, and one verified engine walks that list to produce
//! a projection with positional and case-insensitive keyed access.
//!
//! The HTTP transport itself is not part of the library: callers fetch a
//! response (status code and body text) however they like and hand the plain
//! values to the classification entry points, which validate and project
//! them.
//!
//! A map of the crate:
//!
//! - [`json`] — the owned model of decoded JSON, and the decoding boundary;
//! - [`schema`] — the wire schema: resource kinds and their field tables;
//! - [`project`] — the projection engine and the accessor contract;
//! - [`fetch`] — classification of fetched responses;
//! - [`text`] — the verified text normalizations;
//! - [`translate`] — timestamp and name-to-id translation;
//! - [`user_data`], [`game_data`], [`level_data`], [`gametype_data`],
//!   [`guest_data`] — the per-kind request descriptors and flat accessors;
//! - [`types`] — typed views over projections.

pub mod fetch;
pub mod game_data;
pub mod gametype_data;
pub mod gametypes;
pub mod guest_data;
pub mod json;
pub mod level_data;
pub mod project;
pub mod schema;
pub mod text;
pub mod translate;
pub mod types;
pub mod user_data;

pub use json::Json;
pub use game_data::GameData;
pub use gametype_data::GameTypeData;
pub use level_data::LevelData;
pub use user_data::UserData;
pub use guest_data::guest_data;
pub use gametypes::{gametype_data, gametype_id, gametype_name};
