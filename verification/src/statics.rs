//! Fixed protocol identifiers: the per-command opcodes (signed in source
//! encoding, reinterpreted as unsigned bytes on the wire) and the RFCOMM
//! service-class id.
use vstd::prelude::*;

verus! {

/// Service-class UUID used by the RFCOMM transport variant.
pub const A3951_RFCOMM_UUID: &'static str = "00001101-0000-1000-8000-00805F9B34FB";

pub const A3951_CMD_DEVICE_STATUS: [i8; 7] = [8, -18, 0, 0, 0, 1, 1];

pub const A3951_CMD_DEVICE_INFO: [i8; 7] = [8, -18, 0, 0, 0, 1, 5];

pub const A3951_CMD_DEVICE_GETLDAC: [i8; 7] = [8, -18, 0, 0, 0, 1, 127];

pub const A3951_CMD_DEVICE_GETANC: [i8; 7] = [8, -18, 0, 0, 0, 6, 1];

pub const A3951_CMD_DEVICE_SETANC: [i8; 7] = [8, -18, 0, 0, 0, 6, -127];

pub const A3951_CMD_DEVICE_SETEQ_DRC: [i8; 7] = [8, -18, 0, 0, 0, 3, -121];

} // verus!
