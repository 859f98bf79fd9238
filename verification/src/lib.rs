//! A schema-migration chain resolver and tagged-envelope codec.
//!
//! A record type that has changed shape over time is described by an ordered
//! chain of version shapes `V1 .. Vn` together with a migration edge between
//! each adjacent pair and a final edge from `Vn` to the single in-memory
//! domain type. This crate resolves, for any starting version, the composed
//! migration to the domain type (total or fail-fast fallible), wraps the
//! shapes in a tagged envelope whose wire discriminant is the 1-based
//! version position, and checks the definition-time configuration of such a
//! chain. Byte-level encoding of the flat wire record is left to an external
//! serialization layer; the crate's codecs speak in terms of flat key/value
//! wire records.

pub mod account;
pub mod config;
pub mod envelope;
pub mod item;
pub mod migrate;
pub mod numeric;
pub mod person;
pub mod product;
pub mod profile;
pub mod resolver;
pub mod simple;
pub mod user;
pub mod wire;
