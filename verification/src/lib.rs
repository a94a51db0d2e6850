//! The core of a local encrypted session vault: the envelope that protects
//! session content at rest, the handling of the device-held key, the
//! passphrase gate, and the persistence contract of the session store.
//!
//! The library performs no I/O. Where an operation needs the secret storage
//! or the store, it takes their answer as a plain value and returns what
//! follows from it.

pub mod commands;
pub mod crypto;
pub mod db;
pub mod error;
pub mod primitives;
