//! Feature codecs: ANC profile, clamping, battery, equalizer curves and
//! the fixed-layout status and info decoders.
use soundcore_lib::a3951::A3951;
use soundcore_lib::error::SoundcoreError;
use soundcore_lib::types::{
    ANCModes, ANCProfile, BatteryCharging, BatteryLevel, DeviceInfo, DeviceStatus, EQWave,
};
use soundcore_lib::utils::Clamp;

const STATUS_FIXTURE: [u8; 97] = [
    0x09, 0xFF, 0x00, 0x00, 0x01, 0x01, 0x01, 0x61, 0x00, 0x01, 0x01, 0x05, 0x05, 0x01, 0x01,
    0xFE, 0xFE, 0xA0, 0x92, 0x82, 0x78, 0x78, 0x78, 0x78, 0x78, 0xA0, 0x92, 0x82, 0x78, 0x78,
    0x78, 0x78, 0x78, 0xFF, 0xFF, 0x00, 0xFF, 0xFF, 0xFF, 0xFF, 0xFF, 0xFF, 0xFF, 0xFF, 0xFF,
    0xFF, 0xFF, 0xFF, 0xFF, 0xFF, 0xFF, 0xFF, 0x00, 0x00, 0x00, 0x00, 0x00, 0x00, 0xFF, 0xFF,
    0xFF, 0xFF, 0xFF, 0xFF, 0xFF, 0xFF, 0xFF, 0xFF, 0xFF, 0xFF, 0xFF, 0xFF, 0xFF, 0xFF, 0x01,
    0x63, 0x01, 0x54, 0x01, 0x66, 0x01, 0x54, 0x00, 0x01, 0x00, 0x00, 0x02, 0x01, 0x01, 0x06,
    0x00, 0x01, 0x00, 0x00, 0x00, 0x00, 0xED,
];

const INFO_FIXTURE: [u8; 36] = [
    0x9, 0xFF, 0x0, 0x0, 0x1, 0x1, 0x5, 0x24, 0x0, 0x30, 0x35, 0x2E, 0x36, 0x33, 0x30, 0x35,
    0x2E, 0x36, 0x33, 0x33, 0x39, 0x35, 0x31, 0x30, 0x37, 0x44, 0x32, 0x36, 0x41, 0x32, 0x46,
    0x31, 0x32, 0x41, 0x43, 0xB0,
];

const ANC_FIXTURE: [u8; 14] = [
    0x09, 0xFF, 0x00, 0x00, 0x01, 0x06, 0x01, 0x0E, 0x00, 0x00, 0x01, 0x01, 0x06, 0x26,
];

#[test]
fn clamp_bounds_and_idempotence() {
    assert_eq!(Clamp::clamp(7, 0, 5), 5);
    assert_eq!(Clamp::clamp(0, 2, 5), 2);
    assert_eq!(Clamp::clamp(3, 0, 5), 3);
    assert_eq!(Clamp::clamp(Clamp::clamp(200, 0, 10), 0, 10), Clamp::clamp(200, 0, 10));
}

#[test]
fn anc_custom_value_clamps_to_ten() {
    let p = ANCProfile::anc_custom_value(15);
    assert_eq!(p.anc_custom, 10);
    assert_eq!(p.option, 0);
    assert_eq!(p.anc_option, 3);
    assert_eq!(p.transparency_option, 1);
}

#[test]
fn anc_sentinel_is_never_clamped() {
    let p = ANCProfile::from_bytes(&[0, 0, 1, 255]).unwrap();
    assert_eq!(p.anc_custom, 255);
    let q = ANCProfile {
        option: 0,
        anc_option: 3,
        transparency_option: 1,
        anc_custom: 255,
    };
    assert_eq!(q.to_bytes()[3], 255);
}

#[test]
fn anc_round_trip_in_range() {
    let p = ANCProfile {
        option: 1,
        anc_option: 2,
        transparency_option: 9,
        anc_custom: 7,
    };
    let back = ANCProfile::from_bytes(&p.to_bytes()).unwrap();
    assert_eq!(back, p);
}

#[test]
fn anc_round_trip_sentinel() {
    let p = ANCProfile {
        option: 2,
        anc_option: 3,
        transparency_option: 0,
        anc_custom: 255,
    };
    let back = ANCProfile::from_bytes(&p.to_bytes()).unwrap();
    assert_eq!(back, p);
}

#[test]
fn anc_round_trip_clamps_out_of_range() {
    let p = ANCProfile {
        option: 7,
        anc_option: 9,
        transparency_option: 2,
        anc_custom: 42,
    };
    let back = ANCProfile::from_bytes(&p.to_bytes()).unwrap();
    assert_eq!(
        back,
        ANCProfile { option: 2, anc_option: 3, transparency_option: 2, anc_custom: 10 }
    );
}

#[test]
fn anc_short_input_is_rejected() {
    assert_eq!(ANCProfile::from_bytes(&[0, 0, 1]), Err(SoundcoreError::ShortResponse));
}

#[test]
fn battery_level_clamped_to_five() {
    let b = BatteryLevel::from_bytes(&[9, 3]).unwrap();
    assert_eq!(b, BatteryLevel { left: 5, right: 3 });
    assert_eq!(BatteryLevel::from_bytes(&[1]), Err(SoundcoreError::ShortResponse));
}

#[test]
fn battery_charging_flags() {
    let b = BatteryCharging::from_bytes(&[1, 0]).unwrap();
    assert_eq!(b, BatteryCharging { left: true, right: false });
    assert_eq!(BatteryCharging::from_bytes(&[]), Err(SoundcoreError::ShortResponse));
}

#[test]
fn eq_wave_reads_first_eight_bytes() {
    let w = EQWave::from_bytes(&[1, 2, 3, 4, 5, 6, 7, 8, 9]).unwrap();
    assert_eq!(w.bands, [1, 2, 3, 4, 5, 6, 7, 8]);
    assert_eq!(
        EQWave::from_bytes(&[1, 2, 3]).unwrap_err(),
        SoundcoreError::ShortResponse
    );
}

#[test]
fn status_fixture_decodes() {
    let s = A3951::parse_status_response(&STATUS_FIXTURE).unwrap();
    assert_eq!(s.host_device, 1);
    assert!(s.tws_status);
    assert_eq!(s.battery_level, BatteryLevel { left: 1, right: 1 });
    assert_eq!(s.battery_charging, BatteryCharging { left: true, right: true });
    assert_eq!(s.left_eq.bands, [0x01, 0x01, 0xFE, 0xFE, 0xA0, 0x92, 0x82, 0x78]);
    assert_eq!(s.right_eq.bands, s.left_eq.bands);
    assert!(!s.hearid_enabled);
    assert_eq!(s.left_hearid.bands, [0x78, 0xA0, 0x92, 0x82, 0x78, 0x78, 0x78, 0x78]);
    assert_eq!(s.right_hearid.bands, [0x78, 0xFF, 0xFF, 0x00, 0xFF, 0xFF, 0xFF, 0xFF]);
    assert_eq!(s.left_hearid_customdata.bands, [0; 8]);
    assert_eq!(s.right_hearid_customdata.bands, [0; 8]);
    assert_eq!(
        s.anc_status,
        ANCProfile { option: 2, anc_option: 3, transparency_option: 255, anc_custom: 255 }
    );
    assert!(!s.side_tone_enabled);
    assert!(!s.wear_detection_enabled);
    assert!(!s.touch_tone_enabled);
}

#[test]
fn status_bad_checksum_is_rejected() {
    let mut corrupted = STATUS_FIXTURE;
    corrupted[20] ^= 0x40;
    assert_eq!(
        A3951::parse_status_response(&corrupted).unwrap_err(),
        SoundcoreError::ResponseChecksumError
    );
}

#[test]
fn status_short_buffer_is_rejected() {
    // A short buffer with a correct trailing checksum still fails decode.
    let mut short: Vec<u8> = STATUS_FIXTURE[..50].to_vec();
    let sum: u8 = short.iter().fold(0u8, |acc, b| acc.wrapping_add(*b));
    short.push(sum);
    assert_eq!(
        A3951::parse_status_response(&short).unwrap_err(),
        SoundcoreError::ShortResponse
    );
    assert_eq!(
        DeviceStatus::from_bytes(&STATUS_FIXTURE[..92]).unwrap_err(),
        SoundcoreError::ShortResponse
    );
}

#[test]
fn info_fixture_decodes() {
    let info = A3951::parse_info_response(&INFO_FIXTURE).unwrap();
    assert_eq!(info.left_fw, "05.63");
    assert_eq!(info.right_fw, "05.63");
    assert_eq!(info.sn, "395107D26A2F12AC");
}

#[test]
fn info_invalid_utf8_is_rejected() {
    // Same layout as the fixture, with an invalid UTF-8 byte in the
    // firmware field and the checksum fixed up accordingly.
    let mut bad = INFO_FIXTURE;
    bad[9] = 0xFF;
    let sum: u8 = bad[..35].iter().fold(0u8, |acc, b| acc.wrapping_add(*b));
    bad[35] = sum;
    assert_eq!(
        A3951::parse_info_response(&bad).unwrap_err(),
        SoundcoreError::InvalidText
    );
    assert_eq!(
        DeviceInfo::from_bytes(&bad).unwrap_err(),
        SoundcoreError::InvalidText
    );
}

#[test]
fn info_short_buffer_is_rejected() {
    assert_eq!(
        DeviceInfo::from_bytes(&INFO_FIXTURE[..30]).unwrap_err(),
        SoundcoreError::ShortResponse
    );
}

#[test]
fn anc_fixture_decodes() {
    let p = A3951::parse_anc_response(&ANC_FIXTURE).unwrap();
    assert_eq!(
        p,
        ANCProfile { option: 0, anc_option: 1, transparency_option: 1, anc_custom: 6 }
    );
}

#[test]
fn anc_response_bad_checksum_is_rejected() {
    let mut corrupted = ANC_FIXTURE;
    corrupted[10] = 2;
    assert_eq!(
        A3951::parse_anc_response(&corrupted).unwrap_err(),
        SoundcoreError::ResponseChecksumError
    );
}

#[test]
fn ldac_response_decodes() {
    // opcode echo, length, flag byte, checksum
    let mut resp: Vec<u8> = vec![9, 255, 0, 0, 1, 1, 127, 11, 0, 1];
    let sum: u8 = resp.iter().fold(0u8, |acc, b| acc.wrapping_add(*b));
    resp.push(sum);
    assert_eq!(A3951::parse_ldac_response(&resp), Ok(true));
    resp[9] = 0;
    let sum2: u8 = resp[..10].iter().fold(0u8, |acc, b| acc.wrapping_add(*b));
    resp[10] = sum2;
    assert_eq!(A3951::parse_ldac_response(&resp), Ok(false));
}

#[test]
fn anc_mode_selection_resolves_to_profiles() {
    assert_eq!(ANCModes::NormalMode.to_profile(), ANCProfile::normal_mode());
    assert_eq!(ANCModes::AncTransportMode.to_profile(), ANCProfile::anc_transport_mode());
    assert_eq!(ANCModes::AncOutdoorMode.to_profile(), ANCProfile::anc_outdoor_mode());
    assert_eq!(ANCModes::AncIndoorMode.to_profile(), ANCProfile::anc_indoor_mode());
    assert_eq!(
        ANCModes::TransparencyFullyTransparentMode.to_profile(),
        ANCProfile::transparency_fully_transparent_mode()
    );
    assert_eq!(ANCModes::TransparencyVocalMode.to_profile(), ANCProfile::transparency_vocal_mode());
    assert_eq!(ANCModes::AncCustomValue(15).to_profile(), ANCProfile::anc_custom_value(15));
    assert_eq!(ANCModes::AncCustomValue(15).to_profile().anc_custom, 10);
}

#[test]
fn anc_mode_presets() {
    assert_eq!(
        ANCProfile::normal_mode(),
        ANCProfile { option: 2, anc_option: 0, transparency_option: 0, anc_custom: 6 }
    );
    assert_eq!(
        ANCProfile::anc_transport_mode(),
        ANCProfile { option: 0, anc_option: 0, transparency_option: 1, anc_custom: 6 }
    );
    assert_eq!(
        ANCProfile::anc_outdoor_mode(),
        ANCProfile { option: 0, anc_option: 1, transparency_option: 1, anc_custom: 6 }
    );
    assert_eq!(
        ANCProfile::anc_indoor_mode(),
        ANCProfile { option: 0, anc_option: 2, transparency_option: 1, anc_custom: 6 }
    );
    assert_eq!(
        ANCProfile::transparency_fully_transparent_mode(),
        ANCProfile { option: 1, anc_option: 0, transparency_option: 0, anc_custom: 6 }
    );
    assert_eq!(
        ANCProfile::transparency_vocal_mode(),
        ANCProfile { option: 1, anc_option: 0, transparency_option: 1, anc_custom: 6 }
    );
}
