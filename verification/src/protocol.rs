//! Vocabularies of protocol bindings.

pub mod http;
