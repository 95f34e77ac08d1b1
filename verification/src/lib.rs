//! A minimal person-registration form and its submission service.
//!
//! The library holds everything that can be stated and proved: the record
//! types exchanged between the form and the service, the JSON encoding and
//! decoding of those records, the form's local state machine, and the
//! service's request handling. The surrounding processes (an HTTP server,
//! a browser UI) only move bytes in and out of these functions.

pub mod text;
pub mod model;
pub mod json;
pub mod form;
pub mod server;
pub mod roundtrip;
