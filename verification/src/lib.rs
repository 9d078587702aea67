//! Verified client-side logic for reading a manifest of server addresses and
//! decoding the JSON metadata document that each server publishes.
//!
//! The library holds everything that can be stated and proved: splitting a
//! manifest into lines (`manifest`), parsing JSON text (`json`), decoding
//! the instance-metadata schema (`schema`, `decode`), and the bookkeeping of
//! a sequential pass over the manifest (`run`). The surrounding binary
//! performs the network and file I/O and hands this library plain values.

pub mod decode;
pub mod json;
pub mod manifest;
pub mod run;
pub mod schema;
