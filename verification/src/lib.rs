//! Lazy resolution of the host's enumeration names against the bundled
//! reflection database.

pub mod database;
pub mod enum_item;
pub mod error;
pub mod laws;
pub mod value;
