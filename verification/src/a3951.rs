//! The A3951 device protocol engine: builders for every outbound command
//! frame and decoders for every response the device sends back.
//!
//! Each request is one frame: opcode, length, optional payload, checksum.
//! The transport round trip (send, settle delay, receive) belongs to the
//! I/O layer around the library; it hands the received buffer to the
//! `parse_*` functions here, which validate the checksum before any field
//! is decoded.
use vstd::prelude::*;

use crate::error::SoundcoreError;
use crate::statics::{
    A3951_CMD_DEVICE_GETANC, A3951_CMD_DEVICE_GETLDAC, A3951_CMD_DEVICE_INFO,
    A3951_CMD_DEVICE_SETANC, A3951_CMD_DEVICE_SETEQ_DRC, A3951_CMD_DEVICE_STATUS,
};
use crate::types::{
    spec_anc_from_bytes, spec_anc_to_bytes, spec_info_decodable, spec_info_matches,
    spec_status_matches, ANCProfile, DeviceInfo, DeviceStatus, EQWave,
};
use crate::utils::{
    build_command_array_with_options_toggle_enabled, data_seq_of, frame_bytes, frame_valid,
    i8_to_u8vec, u8_of_i8, verify_resp,
};

verus! {

/// The wire bytes of a signed opcode array.
pub open spec fn spec_opcode_bytes(cmd: Seq<i8>) -> Seq<u8> {
    cmd.map_values(|b: i8| u8_of_i8(b))
}

/// The complete frame for an opcode and payload.
pub open spec fn spec_request_frame(cmd: Seq<i8>, payload: Seq<u8>) -> Seq<u8> {
    frame_bytes(spec_opcode_bytes(cmd), payload)
}

/// The equalizer-set payload. After the index selector (and, on
/// DRC-capable models, the sub-index) come the primary curve twice, two
/// sentinel bytes and a zero, the hear-ID placeholder curve twice, five
/// zero bytes (four padding, one hear-ID type), the placeholder twice
/// again, and the corrected curve twice.
pub open spec fn spec_eq_payload(primary: Seq<u8>, corrected: Seq<u8>, drc_supported: bool) -> Seq<
    u8,
> {
    let head = if drc_supported {
        seq![0xFEu8, 0xFEu8, 0u8, 0u8]
    } else {
        seq![0xFEu8, 0xFEu8]
    };
    let hear = Seq::new(8, |i: int| 255u8);
    head + primary + primary + seq![255u8, 255u8, 0u8] + hear + hear + seq![
        0u8,
        0u8,
        0u8,
        0u8,
        0u8,
    ] + hear + hear + corrected + corrected
}

/// Appends the eight band bytes of `w` to `out`.
fn extend_bands(out: &mut Vec<u8>, w: &EQWave)
    ensures
        final(out)@ == old(out)@ + w.bands@,
{
    let mut i: usize = 0;
    while i < 8
        invariant
            0 <= i <= 8,
            out@ =~= old(out)@ + w.bands@.take(i as int),
        decreases 8 - i,
    {
        out.push(w.bands[i]);
        proof {
            assert(w.bands@.take(i as int + 1) =~= w.bands@.take(i as int).push(w.bands@[i as int]));
        }
        i = i + 1;
    }
    proof {
        assert(w.bands@.take(8) =~= w.bands@);
    }
}

/// Builds the complete frame for `cmd` with the optional payload.
fn build_cmd_frame(cmd: &[i8; 7], data: Option<&[u8]>) -> (r: Vec<u8>)
    requires
        data_seq_of(data).len() + 10 <= 0xFFFF,
    ensures
        r@ == spec_request_frame(cmd@, data_seq_of(data)),
{
    let cmd_u8 = i8_to_u8vec(cmd.as_slice());
    proof {
        assert(cmd_u8@ =~= spec_opcode_bytes(cmd@));
    }
    build_command_array_with_options_toggle_enabled(cmd_u8.as_slice(), data)
}

/// The A3951 device model: its command set as pure frame builders and
/// response decoders.
pub struct A3951;

impl A3951 {
    /// The frame requesting the full device status.
    pub fn status_request() -> (r: Vec<u8>)
        ensures
            r@ == spec_request_frame(A3951_CMD_DEVICE_STATUS@, Seq::empty()),
    {
        build_cmd_frame(&A3951_CMD_DEVICE_STATUS, None)
    }

    /// The frame requesting firmware versions and serial number.
    pub fn info_request() -> (r: Vec<u8>)
        ensures
            r@ == spec_request_frame(A3951_CMD_DEVICE_INFO@, Seq::empty()),
    {
        build_cmd_frame(&A3951_CMD_DEVICE_INFO, None)
    }

    /// The frame requesting the current noise-control profile.
    pub fn anc_request() -> (r: Vec<u8>)
        ensures
            r@ == spec_request_frame(A3951_CMD_DEVICE_GETANC@, Seq::empty()),
    {
        build_cmd_frame(&A3951_CMD_DEVICE_GETANC, None)
    }

    /// The frame requesting the LDAC toggle state.
    pub fn ldac_request() -> (r: Vec<u8>)
        ensures
            r@ == spec_request_frame(A3951_CMD_DEVICE_GETLDAC@, Seq::empty()),
    {
        build_cmd_frame(&A3951_CMD_DEVICE_GETLDAC, None)
    }

    /// The frame configuring the noise-control profile; the payload is
    /// the profile's four encoded bytes.
    pub fn set_anc_request(profile: &ANCProfile) -> (r: Vec<u8>)
        ensures
            r@ == spec_request_frame(A3951_CMD_DEVICE_SETANC@, spec_anc_to_bytes(*profile)),
    {
        let payload = profile.to_bytes();
        build_cmd_frame(&A3951_CMD_DEVICE_SETANC, Some(payload.as_slice()))
    }

    /// The equalizer-set payload for this model. DRC-capable models
    /// carry the two extra sub-index bytes, for 76 payload bytes in all;
    /// others carry 74.
    pub fn set_eq_payload(primary: &EQWave, corrected: &EQWave, drc_supported: bool) -> (r: Vec<
        u8,
    >)
        ensures
            r@ == spec_eq_payload(primary.bands@, corrected.bands@, drc_supported),
            r@.len() == if drc_supported {
                76int
            } else {
                74int
            },
    {
        let mut out: Vec<u8> = Vec::new();
        out.push(0xFE);
        out.push(0xFE);
        if drc_supported {
            out.push(0);
            out.push(0);
        }
        let hear = EQWave::heard_id_default();
        extend_bands(&mut out, primary);
        extend_bands(&mut out, primary);
        out.push(255);
        out.push(255);
        out.push(0);
        extend_bands(&mut out, &hear);
        extend_bands(&mut out, &hear);
        out.push(0);
        out.push(0);
        out.push(0);
        out.push(0);
        out.push(0);
        extend_bands(&mut out, &hear);
        extend_bands(&mut out, &hear);
        extend_bands(&mut out, corrected);
        extend_bands(&mut out, corrected);
        proof {
            assert(out@ =~= spec_eq_payload(primary.bands@, corrected.bands@, drc_supported));
        }
        out
    }

    /// The frame configuring the equalizer on this DRC-capable model:
    /// the primary curve and the transmitted "corrected" curve, packed
    /// into the fixed payload layout.
    pub fn set_eq_request(primary: &EQWave, corrected: &EQWave) -> (r: Vec<u8>)
        ensures
            r@ == spec_request_frame(
                A3951_CMD_DEVICE_SETEQ_DRC@,
                spec_eq_payload(primary.bands@, corrected.bands@, true),
            ),
    {
        let payload = Self::set_eq_payload(primary, corrected, true);
        build_cmd_frame(&A3951_CMD_DEVICE_SETEQ_DRC, Some(payload.as_slice()))
    }

    /// Decodes a status response: the checksum is validated first, then
    /// the buffer must reach the last decoded field.
    pub fn parse_status_response(resp: &[u8]) -> (r: Result<DeviceStatus, SoundcoreError>)
        ensures
            !frame_valid(resp@) ==> r == Result::<DeviceStatus, SoundcoreError>::Err(
                SoundcoreError::ResponseChecksumError,
            ),
            frame_valid(resp@) && resp@.len() < 93 ==> r == Result::<
                DeviceStatus,
                SoundcoreError,
            >::Err(SoundcoreError::ShortResponse),
            frame_valid(resp@) && resp@.len() >= 93 ==> (r matches Ok(s) && spec_status_matches(
                s,
                resp@,
            )),
    {
        if !verify_resp(resp) {
            return Err(SoundcoreError::ResponseChecksumError);
        }
        DeviceStatus::from_bytes(resp)
    }

    /// Decodes an info response: checksum first, then the three UTF-8
    /// fields.
    pub fn parse_info_response(resp: &[u8]) -> (r: Result<DeviceInfo, SoundcoreError>)
        ensures
            !frame_valid(resp@) ==> r == Result::<DeviceInfo, SoundcoreError>::Err(
                SoundcoreError::ResponseChecksumError,
            ),
            frame_valid(resp@) && resp@.len() < 35 ==> r == Result::<
                DeviceInfo,
                SoundcoreError,
            >::Err(SoundcoreError::ShortResponse),
            frame_valid(resp@) && resp@.len() >= 35 && !spec_info_decodable(resp@) ==> r
                == Result::<DeviceInfo, SoundcoreError>::Err(SoundcoreError::InvalidText),
            frame_valid(resp@) && resp@.len() >= 35 && spec_info_decodable(resp@) ==> (r matches Ok(
                info,
            ) && spec_info_matches(info, resp@)),
    {
        if !verify_resp(resp) {
            return Err(SoundcoreError::ResponseChecksumError);
        }
        DeviceInfo::from_bytes(resp)
    }

    /// Decodes an ANC response: checksum first, then the four profile
    /// bytes at their fixed offset.
    pub fn parse_anc_response(resp: &[u8]) -> (r: Result<ANCProfile, SoundcoreError>)
        ensures
            !frame_valid(resp@) ==> r == Result::<ANCProfile, SoundcoreError>::Err(
                SoundcoreError::ResponseChecksumError,
            ),
            frame_valid(resp@) && resp@.len() < 13 ==> r == Result::<
                ANCProfile,
                SoundcoreError,
            >::Err(SoundcoreError::ShortResponse),
            frame_valid(resp@) && resp@.len() >= 13 ==> r == Result::<
                ANCProfile,
                SoundcoreError,
            >::Ok(spec_anc_from_bytes(resp@.subrange(9, 13))),
    {
        if !verify_resp(resp) {
            return Err(SoundcoreError::ResponseChecksumError);
        }
        if resp.len() < 13 {
            return Err(SoundcoreError::ShortResponse);
        }
        match ANCProfile::from_bytes(&resp[9..13]) {
            Ok(p) => Ok(p),
            Err(e) => {
                proof {
                    assert(false);
                }
                Err(e)
            },
        }
    }

    /// Decodes an LDAC response: checksum first, then the toggle byte.
    pub fn parse_ldac_response(resp: &[u8]) -> (r: Result<bool, SoundcoreError>)
        ensures
            !frame_valid(resp@) ==> r == Result::<bool, SoundcoreError>::Err(
                SoundcoreError::ResponseChecksumError,
            ),
            frame_valid(resp@) && resp@.len() < 10 ==> r == Result::<bool, SoundcoreError>::Err(
                SoundcoreError::ShortResponse,
            ),
            frame_valid(resp@) && resp@.len() >= 10 ==> r == Result::<bool, SoundcoreError>::Ok(
                resp@[9] == 1,
            ),
    {
        if !verify_resp(resp) {
            return Err(SoundcoreError::ResponseChecksumError);
        }
        if resp.len() < 10 {
            return Err(SoundcoreError::ShortResponse);
        }
        Ok(resp[9] == 1)
    }
}

} // verus!
