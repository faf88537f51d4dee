//! A safety-oriented model of a session wrapper around a vendor GPU-management
//! native library.
//!
//! The native library is reached over a fixed binary interface that this crate
//! cannot call directly; instead, every operation is split into a verified
//! decision half (argument validation, request encoding, buffer sizing) and a
//! verified interpretation half (status checking, error translation, reply
//! decoding).  A thin unverified driver performs the native calls and feeds
//! each outcome back into the interpretation functions.
#![allow(non_snake_case)]

pub mod bitmask;
pub mod error;
pub mod labels;
pub mod loader;
pub mod parse;
pub mod queries;
pub mod session;
pub mod topology;
pub mod values;
pub mod version;
