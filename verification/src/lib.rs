//! Protocol client library for a family of Soundcore Bluetooth audio
//! devices.
//!
//! The library covers the device protocol engine (binary command frames,
//! checksum validation, fixed-layout response decoding), the feature codecs
//! (ANC profile, equalizer curves, battery, feature-flag bitset), the
//! address/descriptor model, the GATT uuid-set discovery heuristic, and the
//! reference-counted connection pool. Transport I/O (RFCOMM sockets, GATT
//! subscriptions) lives outside the library; callers hand raw byte buffers
//! in and get typed state back.
use vstd::prelude::*;

pub mod a3951;
pub mod ble;
pub mod btaddr;
pub mod discovery;
pub mod error;
pub mod feature_flags;
pub mod pool;
pub mod statics;
pub mod types;
pub mod utils;

verus! {

} // verus!
