//! A small file-backed task store: an ordered collection of records, each a
//! numeric identifier, a title and a completion flag, together with the four
//! operations a serving layer exposes over it — list, create, update, delete.
//! Every operation works on the full in-memory collection; persistence and
//! transport stay outside the library.

pub mod handlers;
pub mod laws;
pub mod store;
