//! A store of records behind an HTTP endpoint, without the endpoint: the
//! decisions of the request handler and of the store, on plain values.
//!
//! A submission is a JSON document that holds one record or an array of
//! records. The store keeps the records it was given, in the order in which
//! they came, as one JSON array. Reading sockets and files is left to the
//! caller, which is told what to do next by [`handler::step`].

pub mod codec;
pub mod handler;
pub mod json;
pub mod record;
pub mod store;
