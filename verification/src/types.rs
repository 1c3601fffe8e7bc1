//! Typed device state and the pure codecs that decode fixed-layout
//! response buffers into it.
use vstd::prelude::*;

use crate::error::SoundcoreError;
use crate::utils::{clamp_spec, utf8_to_string, Clamp};

verus! {

/// Noise-control configuration: a mode selector, the two sub-options and
/// the custom ANC intensity. The custom value `255` is the "unset"
/// sentinel and passes through every codec unclamped.
#[derive(Clone, Copy, Debug, PartialEq, Eq, Structural)]
pub struct ANCProfile {
    pub option: u8,
    pub anc_option: u8,
    pub transparency_option: u8,
    pub anc_custom: u8,
}

/// Battery level per ear, clamped to `[0, 5]`.
#[derive(Clone, Copy, Debug, PartialEq, Eq, Structural)]
pub struct BatteryLevel {
    pub left: u8,
    pub right: u8,
}

/// Charging flag per ear.
#[derive(Clone, Copy, Debug, PartialEq, Eq, Structural)]
pub struct BatteryCharging {
    pub left: bool,
    pub right: bool,
}

/// An 8-band equalizer curve in its wire encoding: one byte per band.
#[derive(Clone, Copy, Debug, Eq)]
pub struct EQWave {
    pub bands: [u8; 8],
}

impl PartialEq for EQWave {
    fn eq(&self, o: &EQWave) -> (r: bool) {
        let r = self.bands[0] == o.bands[0] && self.bands[1] == o.bands[1] && self.bands[2]
            == o.bands[2] && self.bands[3] == o.bands[3] && self.bands[4] == o.bands[4]
            && self.bands[5] == o.bands[5] && self.bands[6] == o.bands[6] && self.bands[7]
            == o.bands[7];
        proof {
            if r {
                assert(self.bands@ =~= o.bands@);
            }
        }
        r
    }
}

impl vstd::std_specs::cmp::PartialEqSpecImpl for EQWave {
    open spec fn obeys_eq_spec() -> bool {
        true
    }

    open spec fn eq_spec(&self, o: &EQWave) -> bool {
        self.bands@ == o.bands@
    }
}

impl Default for EQWave {
    /// The neutral curve: every band zero.
    fn default() -> (r: EQWave)
        ensures
            r.bands@ == Seq::new(8, |i: int| 0u8),
    {
        let r = EQWave { bands: [0, 0, 0, 0, 0, 0, 0, 0] };
        proof {
            assert(r.bands@ =~= Seq::new(8, |i: int| 0u8));
        }
        r
    }
}

impl EQWave {
    /// The hear-ID placeholder curve: every band carries the sentinel
    /// byte `255`.
    pub fn heard_id_default() -> (r: EQWave)
        ensures
            r.bands@ == Seq::new(8, |i: int| 255u8),
    {
        let r = EQWave { bands: [255, 255, 255, 255, 255, 255, 255, 255] };
        proof {
            assert(r.bands@ =~= Seq::new(8, |i: int| 255u8));
        }
        r
    }

    /// Reads the first eight bytes of `arr` as a curve; shorter input is
    /// a hard error.
    pub fn from_bytes(arr: &[u8]) -> (r: Result<EQWave, SoundcoreError>)
        ensures
            r is Ok <==> arr@.len() >= 8,
            r matches Ok(w) ==> w.bands@ == arr@.subrange(0, 8),
            r is Err ==> r == Result::<EQWave, SoundcoreError>::Err(SoundcoreError::ShortResponse),
    {
        if arr.len() < 8 {
            return Err(SoundcoreError::ShortResponse);
        }
        let w = EQWave { bands: [arr[0], arr[1], arr[2], arr[3], arr[4], arr[5], arr[6], arr[7]] };
        proof {
            assert(w.bands@ =~= arr@.subrange(0, 8));
        }
        Ok(w)
    }
}

/// Firmware versions and serial number of a device.
#[derive(Debug)]
pub struct DeviceInfo {
    pub left_fw: String,
    pub right_fw: String,
    pub sn: String,
}

impl Clone for DeviceInfo {
    /// An exact copy of all three fields.
    fn clone(&self) -> (r: DeviceInfo)
        ensures
            r.left_fw@ == self.left_fw@,
            r.right_fw@ == self.right_fw@,
            r.sn@ == self.sn@,
    {
        DeviceInfo {
            left_fw: self.left_fw.clone(),
            right_fw: self.right_fw.clone(),
            sn: self.sn.clone(),
        }
    }
}

/// The custom ANC intensity codec: the sentinel `255` passes through,
/// everything else is clamped to `[0, 10]`.
pub open spec fn spec_anc_custom(b: u8) -> u8 {
    if b == 255 {
        255u8
    } else {
        clamp_spec(b, 0, 10)
    }
}

/// The profile decoded from four payload bytes.
pub open spec fn spec_anc_from_bytes(arr: Seq<u8>) -> ANCProfile {
    ANCProfile {
        option: clamp_spec(arr[0], 0, 2),
        anc_option: clamp_spec(arr[1], 0, 3),
        transparency_option: arr[2],
        anc_custom: spec_anc_custom(arr[3]),
    }
}

/// The four payload bytes encoding a profile; every sub-field is clamped
/// independently on encode.
pub open spec fn spec_anc_to_bytes(p: ANCProfile) -> Seq<u8> {
    seq![
        clamp_spec(p.option, 0, 2),
        clamp_spec(p.anc_option, 0, 3),
        p.transparency_option,
        spec_anc_custom(p.anc_custom),
    ]
}

/// A profile whose fields already sit in their encodable ranges.
pub open spec fn spec_anc_normalized(p: ANCProfile) -> bool {
    p.option <= 2 && p.anc_option <= 3 && (p.anc_custom <= 10 || p.anc_custom == 255)
}

/// The profile with every field forced into its encodable range.
pub open spec fn spec_anc_normalize(p: ANCProfile) -> ANCProfile {
    ANCProfile {
        option: clamp_spec(p.option, 0, 2),
        anc_option: clamp_spec(p.anc_option, 0, 3),
        transparency_option: p.transparency_option,
        anc_custom: spec_anc_custom(p.anc_custom),
    }
}

/// Encoding then decoding a profile yields its normalized form; a
/// profile already in range round-trips unchanged. The `255` sentinel is
/// never clamped.
pub proof fn lemma_anc_round_trip(p: ANCProfile)
    ensures
        spec_anc_from_bytes(spec_anc_to_bytes(p)) == spec_anc_normalize(p),
        spec_anc_normalized(p) ==> spec_anc_from_bytes(spec_anc_to_bytes(p)) == p,
{
}

impl ANCProfile {
    /// Normal mode: no noise control.
    pub fn normal_mode() -> (r: ANCProfile)
        ensures
            r == (ANCProfile { option: 2, anc_option: 0, transparency_option: 0, anc_custom: 6 }),
    {
        ANCProfile { option: 2, anc_option: 0, transparency_option: 0, anc_custom: 6 }
    }

    /// ANC tuned for transport noise.
    pub fn anc_transport_mode() -> (r: ANCProfile)
        ensures
            r == (ANCProfile { option: 0, anc_option: 0, transparency_option: 1, anc_custom: 6 }),
    {
        ANCProfile { option: 0, anc_option: 0, transparency_option: 1, anc_custom: 6 }
    }

    /// ANC tuned for outdoor noise.
    pub fn anc_outdoor_mode() -> (r: ANCProfile)
        ensures
            r == (ANCProfile { option: 0, anc_option: 1, transparency_option: 1, anc_custom: 6 }),
    {
        ANCProfile { option: 0, anc_option: 1, transparency_option: 1, anc_custom: 6 }
    }

    /// ANC tuned for indoor noise.
    pub fn anc_indoor_mode() -> (r: ANCProfile)
        ensures
            r == (ANCProfile { option: 0, anc_option: 2, transparency_option: 1, anc_custom: 6 }),
    {
        ANCProfile { option: 0, anc_option: 2, transparency_option: 1, anc_custom: 6 }
    }

    /// Full ambient pass-through.
    pub fn transparency_fully_transparent_mode() -> (r: ANCProfile)
        ensures
            r == (ANCProfile { option: 1, anc_option: 0, transparency_option: 0, anc_custom: 6 }),
    {
        ANCProfile { option: 1, anc_option: 0, transparency_option: 0, anc_custom: 6 }
    }

    /// Ambient pass-through favouring voices.
    pub fn transparency_vocal_mode() -> (r: ANCProfile)
        ensures
            r == (ANCProfile { option: 1, anc_option: 0, transparency_option: 1, anc_custom: 6 }),
    {
        ANCProfile { option: 1, anc_option: 0, transparency_option: 1, anc_custom: 6 }
    }

    /// The custom-intensity profile: fixed mode selectors and the input
    /// value clamped to `[0, 10]`.
    pub fn anc_custom_value(val: u8) -> (r: ANCProfile)
        ensures
            r == (ANCProfile {
                option: 0,
                anc_option: 3,
                transparency_option: 1,
                anc_custom: clamp_spec(val, 0, 10),
            }),
    {
        ANCProfile {
            option: 0,
            anc_option: 3,
            transparency_option: 1,
            anc_custom: Clamp::clamp(val, 0, 10),
        }
    }

    /// Decodes a four-byte ANC payload, clamping the mode selector and
    /// ANC sub-option and preserving the `255` sentinel.
    pub fn from_bytes(arr: &[u8]) -> (r: Result<ANCProfile, SoundcoreError>)
        ensures
            r is Ok <==> arr@.len() >= 4,
            r matches Ok(p) ==> p == spec_anc_from_bytes(arr@),
            r is Err ==> r == Result::<ANCProfile, SoundcoreError>::Err(
                SoundcoreError::ShortResponse,
            ),
    {
        if arr.len() < 4 {
            return Err(SoundcoreError::ShortResponse);
        }
        let anc_custom: u8 = if arr[3] == 255 {
            255
        } else {
            Clamp::clamp(arr[3], 0, 10)
        };
        Ok(
            ANCProfile {
                option: Clamp::clamp(arr[0], 0, 2),
                anc_option: Clamp::clamp(arr[1], 0, 3),
                transparency_option: arr[2],
                anc_custom,
            },
        )
    }

    /// Encodes the profile into its four payload bytes, clamping each
    /// sub-field independently and preserving the `255` sentinel.
    pub fn to_bytes(&self) -> (r: [u8; 4])
        ensures
            r@ == spec_anc_to_bytes(*self),
    {
        let anc_custom: u8 = if self.anc_custom == 255 {
            255
        } else {
            Clamp::clamp(self.anc_custom, 0, 10)
        };
        let r = [
            Clamp::clamp(self.option, 0, 2),
            Clamp::clamp(self.anc_option, 0, 3),
            self.transparency_option,
            anc_custom,
        ];
        proof {
            assert(r@ =~= spec_anc_to_bytes(*self));
        }
        r
    }
}

/// The noise-control selections a front-end can ask for.
#[derive(Clone, Copy, Debug, PartialEq, Eq, Structural)]
pub enum ANCModes {
    NormalMode,
    AncTransportMode,
    AncOutdoorMode,
    AncIndoorMode,
    AncCustomValue(u8),
    TransparencyFullyTransparentMode,
    TransparencyVocalMode,
}

/// The wire profile each selection stands for; a custom selection
/// carries its intensity, clamped to `[0, 10]`.
pub open spec fn spec_profile_for_mode(m: ANCModes) -> ANCProfile {
    match m {
        ANCModes::NormalMode => ANCProfile {
            option: 2,
            anc_option: 0,
            transparency_option: 0,
            anc_custom: 6,
        },
        ANCModes::AncTransportMode => ANCProfile {
            option: 0,
            anc_option: 0,
            transparency_option: 1,
            anc_custom: 6,
        },
        ANCModes::AncOutdoorMode => ANCProfile {
            option: 0,
            anc_option: 1,
            transparency_option: 1,
            anc_custom: 6,
        },
        ANCModes::AncIndoorMode => ANCProfile {
            option: 0,
            anc_option: 2,
            transparency_option: 1,
            anc_custom: 6,
        },
        ANCModes::AncCustomValue(v) => ANCProfile {
            option: 0,
            anc_option: 3,
            transparency_option: 1,
            anc_custom: clamp_spec(v, 0, 10),
        },
        ANCModes::TransparencyFullyTransparentMode => ANCProfile {
            option: 1,
            anc_option: 0,
            transparency_option: 0,
            anc_custom: 6,
        },
        ANCModes::TransparencyVocalMode => ANCProfile {
            option: 1,
            anc_option: 0,
            transparency_option: 1,
            anc_custom: 6,
        },
    }
}

impl ANCModes {
    /// Resolves the selection to the profile that goes on the wire.
    pub fn to_profile(&self) -> (r: ANCProfile)
        ensures
            r == spec_profile_for_mode(*self),
    {
        match *self {
            ANCModes::NormalMode => ANCProfile::normal_mode(),
            ANCModes::AncTransportMode => ANCProfile::anc_transport_mode(),
            ANCModes::AncOutdoorMode => ANCProfile::anc_outdoor_mode(),
            ANCModes::AncIndoorMode => ANCProfile::anc_indoor_mode(),
            ANCModes::AncCustomValue(v) => ANCProfile::anc_custom_value(v),
            ANCModes::TransparencyFullyTransparentMode => {
                ANCProfile::transparency_fully_transparent_mode()
            },
            ANCModes::TransparencyVocalMode => ANCProfile::transparency_vocal_mode(),
        }
    }
}

impl BatteryLevel {
    /// Decodes one battery level per ear, clamped to `[0, 5]`; fewer
    /// than two bytes is a hard error.
    pub fn from_bytes(arr: &[u8]) -> (r: Result<BatteryLevel, SoundcoreError>)
        ensures
            r is Ok <==> arr@.len() >= 2,
            r matches Ok(b) ==> b == (BatteryLevel {
                left: clamp_spec(arr@[0], 0, 5),
                right: clamp_spec(arr@[1], 0, 5),
            }),
            r is Err ==> r == Result::<BatteryLevel, SoundcoreError>::Err(
                SoundcoreError::ShortResponse,
            ),
    {
        if arr.len() < 2 {
            return Err(SoundcoreError::ShortResponse);
        }
        Ok(BatteryLevel { left: Clamp::clamp(arr[0], 0, 5), right: Clamp::clamp(arr[1], 0, 5) })
    }
}

impl BatteryCharging {
    /// Decodes one charging flag per ear; fewer than two bytes is a hard
    /// error.
    pub fn from_bytes(arr: &[u8]) -> (r: Result<BatteryCharging, SoundcoreError>)
        ensures
            r is Ok <==> arr@.len() >= 2,
            r matches Ok(b) ==> b == (BatteryCharging { left: arr@[0] == 1, right: arr@[1] == 1 }),
            r is Err ==> r == Result::<BatteryCharging, SoundcoreError>::Err(
                SoundcoreError::ShortResponse,
            ),
    {
        if arr.len() < 2 {
            return Err(SoundcoreError::ShortResponse);
        }
        Ok(BatteryCharging { left: arr[0] == 1, right: arr[1] == 1 })
    }
}

/// The three textual fields of an info buffer are all valid UTF-8.
pub open spec fn spec_info_decodable(arr: Seq<u8>) -> bool {
    &&& vstd::utf8::valid_utf8(arr.subrange(9, 14))
    &&& vstd::utf8::valid_utf8(arr.subrange(14, 19))
    &&& vstd::utf8::valid_utf8(arr.subrange(19, 35))
}

/// `info` holds exactly the fields decoded from `arr` at the documented
/// offsets.
pub open spec fn spec_info_matches(info: DeviceInfo, arr: Seq<u8>) -> bool {
    &&& info.left_fw@ == vstd::utf8::decode_utf8(arr.subrange(9, 14))
    &&& info.right_fw@ == vstd::utf8::decode_utf8(arr.subrange(14, 19))
    &&& info.sn@ == vstd::utf8::decode_utf8(arr.subrange(19, 35))
}

impl DeviceInfo {
    /// Decodes the firmware versions and serial number at their fixed
    /// offsets. A buffer shorter than the last field is a hard error, as
    /// is any field that is not valid UTF-8.
    pub fn from_bytes(arr: &[u8]) -> (r: Result<DeviceInfo, SoundcoreError>)
        ensures
            arr@.len() < 35 ==> r == Result::<DeviceInfo, SoundcoreError>::Err(
                SoundcoreError::ShortResponse,
            ),
            arr@.len() >= 35 ==> (r is Ok <==> spec_info_decodable(arr@)),
            arr@.len() >= 35 && r is Err ==> r == Result::<DeviceInfo, SoundcoreError>::Err(
                SoundcoreError::InvalidText,
            ),
            r matches Ok(info) ==> spec_info_matches(info, arr@),
    {
        if arr.len() < 35 {
            return Err(SoundcoreError::ShortResponse);
        }
        let left_fw = match utf8_to_string(&arr[9..14]) {
            Some(s) => s,
            None => {
                return Err(SoundcoreError::InvalidText);
            },
        };
        let right_fw = match utf8_to_string(&arr[14..19]) {
            Some(s) => s,
            None => {
                return Err(SoundcoreError::InvalidText);
            },
        };
        let sn = match utf8_to_string(&arr[19..35]) {
            Some(s) => s,
            None => {
                return Err(SoundcoreError::InvalidText);
            },
        };
        Ok(DeviceInfo { left_fw, right_fw, sn })
    }
}

/// Full decoded device state.
///
/// In the layout currently in force the left and right equalizer curves
/// are read from the same source range — a known quirk kept for wire
/// compatibility — and the hear-ID custom-data curves and the side-tone
/// and touch-tone flags are not transmitted, so they decode to fixed
/// defaults.
#[derive(Clone, Copy, Debug, PartialEq, Eq)]
pub struct DeviceStatus {
    pub host_device: u8,
    pub tws_status: bool,
    pub battery_level: BatteryLevel,
    pub battery_charging: BatteryCharging,
    pub left_eq: EQWave,
    pub right_eq: EQWave,
    pub hearid_enabled: bool,
    pub left_hearid: EQWave,
    pub right_hearid: EQWave,
    pub left_hearid_customdata: EQWave,
    pub right_hearid_customdata: EQWave,
    pub anc_status: ANCProfile,
    pub side_tone_enabled: bool,
    pub wear_detection_enabled: bool,
    pub touch_tone_enabled: bool,
}

/// `s` holds exactly the fields decoded from `arr` at the documented
/// offsets of the layout currently in force.
pub open spec fn spec_status_matches(s: DeviceStatus, arr: Seq<u8>) -> bool {
    &&& s.host_device == arr[9]
    &&& s.tws_status == (arr[10] == 1)
    &&& s.battery_level == (BatteryLevel {
        left: clamp_spec(arr[9], 0, 5),
        right: clamp_spec(arr[9], 0, 5),
    })
    &&& s.battery_charging == (BatteryCharging { left: arr[10] == 1, right: arr[10] == 1 })
    &&& s.left_eq.bands@ == arr.subrange(13, 21)
    &&& s.right_eq.bands@ == arr.subrange(13, 21)
    &&& s.hearid_enabled == (arr[23] == 1)
    &&& s.left_hearid.bands@ == arr.subrange(24, 32)
    &&& s.right_hearid.bands@ == arr.subrange(32, 40)
    &&& s.left_hearid_customdata.bands@ == Seq::new(8, |i: int| 0u8)
    &&& s.right_hearid_customdata.bands@ == Seq::new(8, |i: int| 0u8)
    &&& s.anc_status == spec_anc_from_bytes(arr.subrange(44, 48))
    &&& s.side_tone_enabled == false
    &&& s.wear_detection_enabled == (arr[69] == 1)
    &&& s.touch_tone_enabled == false
}

impl DeviceStatus {
    /// Decodes a status buffer at its fixed offsets; anything shorter
    /// than the last decoded field is a hard error. The same byte feeds
    /// the host-device id and both battery levels, and the same flag
    /// byte feeds the TWS status and both charging flags, in this model
    /// variant.
    pub fn from_bytes(arr: &[u8]) -> (r: Result<DeviceStatus, SoundcoreError>)
        ensures
            r is Ok <==> arr@.len() >= 93,
            r is Err ==> r == Result::<DeviceStatus, SoundcoreError>::Err(
                SoundcoreError::ShortResponse,
            ),
            r matches Ok(s) ==> spec_status_matches(s, arr@),
    {
        if arr.len() < 93 {
            return Err(SoundcoreError::ShortResponse);
        }
        let mut level_arr: Vec<u8> = Vec::new();
        level_arr.push(arr[9]);
        level_arr.push(arr[9]);
        let mut charge_arr: Vec<u8> = Vec::new();
        charge_arr.push(arr[10]);
        charge_arr.push(arr[10]);
        let battery_level = match BatteryLevel::from_bytes(level_arr.as_slice()) {
            Ok(v) => v,
            Err(_) => {
                // Unreachable: the buffer is long enough for this field.
                proof {
                    assert(false);
                }
                return Err(SoundcoreError::ShortResponse);
            },
        };
        let battery_charging = match BatteryCharging::from_bytes(charge_arr.as_slice()) {
            Ok(v) => v,
            Err(_) => {
                // Unreachable: the buffer is long enough for this field.
                proof {
                    assert(false);
                }
                return Err(SoundcoreError::ShortResponse);
            },
        };
        let left_eq = match EQWave::from_bytes(&arr[13..21]) {
            Ok(v) => v,
            Err(_) => {
                // Unreachable: the buffer is long enough for this field.
                proof {
                    assert(false);
                }
                return Err(SoundcoreError::ShortResponse);
            },
        };
        let right_eq = match EQWave::from_bytes(&arr[13..21]) {
            Ok(v) => v,
            Err(_) => {
                // Unreachable: the buffer is long enough for this field.
                proof {
                    assert(false);
                }
                return Err(SoundcoreError::ShortResponse);
            },
        };
        let left_hearid = match EQWave::from_bytes(&arr[24..32]) {
            Ok(v) => v,
            Err(_) => {
                // Unreachable: the buffer is long enough for this field.
                proof {
                    assert(false);
                }
                return Err(SoundcoreError::ShortResponse);
            },
        };
        let right_hearid = match EQWave::from_bytes(&arr[32..40]) {
            Ok(v) => v,
            Err(_) => {
                // Unreachable: the buffer is long enough for this field.
                proof {
                    assert(false);
                }
                return Err(SoundcoreError::ShortResponse);
            },
        };
        let anc_status = match ANCProfile::from_bytes(&arr[44..48]) {
            Ok(v) => v,
            Err(_) => {
                // Unreachable: the buffer is long enough for this field.
                proof {
                    assert(false);
                }
                return Err(SoundcoreError::ShortResponse);
            },
        };
        proof {
            assert(arr@.subrange(13, 21).subrange(0, 8) =~= arr@.subrange(13, 21));
            assert(arr@.subrange(24, 32).subrange(0, 8) =~= arr@.subrange(24, 32));
            assert(arr@.subrange(32, 40).subrange(0, 8) =~= arr@.subrange(32, 40));
        }
        Ok(
            DeviceStatus {
                host_device: arr[9],
                tws_status: arr[10] == 1,
                battery_level,
                battery_charging,
                left_eq,
                right_eq,
                hearid_enabled: arr[23] == 1,
                left_hearid,
                right_hearid,
                left_hearid_customdata: EQWave::default(),
                right_hearid_customdata: EQWave::default(),
                anc_status,
                side_tone_enabled: false,
                wear_detection_enabled: arr[69] == 1,
                touch_tone_enabled: false,
            },
        )
    }
}

} // verus!
