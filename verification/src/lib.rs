//! A conversion bridge between structured-data formats.
//!
//! Text in one format (JSON, YAML or TOML) is parsed into a canonical
//! value tree and re-emitted in another format. Every entry point is
//! total: it returns either the converted payload or a human-readable
//! error message, and never panics.

use vstd::prelude::*;

mod convert;
mod ext_types;
mod outside;
mod value;

pub use convert::from_toml;
pub use convert::from_yaml;
pub use convert::to_toml;
pub use convert::to_yaml;
pub use value::CanonValue;

