//! Initialization of configuration records from an environment snapshot.
//!
//! Each field of a record is described by a [`FieldSpec`]: its name, an
//! optional environment key and an optional default literal. A [`Catalog`]
//! holds the field specs of one record in declaration order and rejects any
//! field that could never be satisfied. [`resolve`] then produces one typed
//! [`Value`] per field, or the [`Error`] of the first field that fails.

pub mod catalog;
pub mod env;
pub mod error;
pub mod field;
pub mod resolve;
pub mod setting;

pub use catalog::{Catalog, SchemaError};
pub use env::Environment;
pub use error::Error;
pub use field::{parse_as, DefaultLiteral, FieldSpec, FieldType, Value};
pub use resolve::{resolve, resolve_field};
pub use setting::Setting;
