//! A run-time reflection and record-layout engine.
//!
//! Record types are described at run time as ordered lists of named,
//! typed fields.  The library packs those fields into a layout with
//! correct offsets and alignment, registers the resulting schemas in a
//! catalog, and instantiates records whose fields can be read and
//! written through checked and unchecked access tiers.

pub mod tags;
pub mod values;
pub mod layouts;
pub mod index_map;
pub mod errors;
pub mod schema;
pub mod access;
pub mod instance;
pub mod registry;
pub mod adapter;
pub mod timing;

