//! A campus position service: a small, fixed collection of named places and
//! the rules by which requests are answered from it.
//!
//! * [`position`] holds the records: a place with its coordinates, floor and
//!   texts, and the envelope that names the current position.
//! * [`store`] holds the collection. It is never empty, and an identifier is
//!   looked up modulo its size, so every identifier names a record.
//! * [`route`] says which request paths lead to which query.
//! * [`service`] answers the two queries and, from these, a request path.
//!
//! The library does no input or output. A front end hands it the path of a
//! GET request and writes out the answer it gets back.

pub mod position;
pub mod route;
pub mod service;
pub mod store;
