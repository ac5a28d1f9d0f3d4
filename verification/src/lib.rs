//! Runtime values of the Move virtual machine, their type layouts, the
//! canonical binary form of a value and the decoration of bare values with
//! field names and type tags.
//!
//! Every data type has a mathematical view (`@`), and every contract in this
//! crate is stated over those views.
//!
//! - `value` holds the values, the layouts and their views; `access` builds
//!   them and reaches their fields.
//! - `encode` writes a value in its canonical binary form and `decode` reads
//!   one, by a layout. `round_trip`, `canonical` and `arity` state what the
//!   two have to do with each other.
//! - `decorate` gives a bare value the names and types of a layout, and
//!   `project` takes the type tag out of a layout. `agreement` says that
//!   decoration leaves the canonical binary form alone.
//! - `display` and `structured` show layouts and values to people and tools.

pub mod access;
pub mod account_address;
pub mod agreement;
pub mod canonical;
pub mod clone;
pub mod arity;
pub mod decode;
pub mod decorate;
pub mod display;
pub mod encode;
pub mod endian;
pub mod errors;
pub mod filter;
pub mod identifier;
pub mod language_storage;
pub mod project;
pub mod round_trip;
pub mod structured;
pub mod text;
pub mod uleb128;
pub mod value;
