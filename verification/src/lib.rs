//! Delivery of raw byte payloads to a printer, bypassing any driver-side
//! rendering.
//!
//! A caller supplies a destination name, an opaque payload (typically a
//! printer command language such as ZPL), and an optional document label,
//! and receives the transferred byte count or a classified error.
//!
//! The heart of the library is the spooler job protocol: open a handle,
//! begin a document, begin a page, write the payload, end the page, end the
//! document, close the handle. Its sequencing and cleanup rules live in
//! [`protocol`] as a state machine whose transitions are fully specified;
//! [`mock`] provides a verified stand-in spooler that counts every call, and
//! [`writer`] runs one whole job against it with an exact contract, so that
//! the cleanup guarantee — once the handle is acquired it is released exactly
//! once, on every path — is proved rather than hoped for.

pub mod mock;
pub mod protocol;
pub mod writer;
