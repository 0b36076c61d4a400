//! Typed views over projections.
//!
//! A projection already carries every field in order; these structs give
//! the small resource kinds an ergonomic typed form.  Each view is built
//! from a projection of its kind, and each field is proved equal to the
//! projection value it came from.

pub mod gametype;
pub use gametype::GameTypeData;

pub mod guest;
pub use guest::GuestData;

pub mod levels;
pub use levels::LevelData;
