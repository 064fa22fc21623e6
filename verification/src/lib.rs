//! Hypermedia forms with typed extensions.
//!
//! A record such as a `Form` has a slot for an extension: a record of another
//! vocabulary whose fields are written into the same object as the record's
//! own. Several extensions are put into one slot as a heterogeneous list.
//! Every record is made with a builder, and the builder of a record with an
//! extension hands the builder of the extension to its caller.
//!
//! - `hlist`: heterogeneous lists.
//! - `builder`: the builder protocol.
//! - `value`, `error`: documents, and the failures of writing and reading them.
//! - `wire`, `fields`, `array`: how records are written to documents and read
//!   back, and what is proved of it.
//! - `response`, `form`, `affordance`: the hypermedia records.
//! - `protocol`: the vocabularies of protocol bindings.

pub mod affordance;
pub mod array;
pub mod builder;
pub mod error;
pub mod fields;
pub mod form;
pub mod hlist;
pub mod protocol;
pub mod response;
pub mod value;
pub mod wire;
