use eclipsecon_mesh::firmware::{
    battery_reading, battery_step, blink_enabled, button_message, display_brightness, next_tid,
    payload_from_readings, publish_period, sensor_step, sound_level, speaker_enabled,
    BatteryCharging, BatteryIndicator, BatteryPresence, BlinkCommand, ModelAction, ModelInput,
    OnOffSet, PublicationCadence,
};
use eclipsecon_mesh::keys::{decode_key, trim_white_space, unprovisioned_uuid, white_space, KeyError};
use eclipsecon_mesh::pre_provision::{publication, GROUP_LABEL};
use eclipsecon_mesh::sensor::Acceleration;
use eclipsecon_mesh::text::{to_ascii_lower_char, to_ascii_lowercase};

#[test]
fn key_is_decoded_after_trimming() {
    let k = decode_key("  8E0A245C38A136E7D6E8429D562DA959\n").unwrap();
    assert_eq!(
        k,
        [0x8E, 0x0A, 0x24, 0x5C, 0x38, 0xA1, 0x36, 0xE7, 0xD6, 0xE8, 0x42, 0x9D, 0x56, 0x2D, 0xA9, 0x59]
    );
    assert_eq!(decode_key("0b5e6760156116bab83115d4c1bfb480").unwrap()[0], 0x0b);
}

#[test]
fn non_hex_key_is_refused() {
    assert_eq!(decode_key("zz0A245C38A136E7D6E8429D562DA959"), Err(KeyError::InvalidHex));
    assert_eq!(decode_key("8E0A245C38A136E7D6E8429D562DA95"), Err(KeyError::InvalidHex));
}

#[test]
fn trimming() {
    assert_eq!(trim_white_space("\t ab c \u{3000}"), "ab c");
    assert_eq!(trim_white_space("   "), "");
    assert_eq!(trim_white_space("x"), "x");
    assert!(white_space('\u{85}'));
    assert!(!white_space('a'));
}

#[test]
fn unprovisioned_uuid_from_build_text() {
    assert_eq!(unprovisioned_uuid(None), None);
    assert_eq!(
        unprovisioned_uuid(Some("f0bfd803cde184133096f003ea4a3dc2")),
        Some([0xf0, 0xbf, 0xd8, 0x03, 0xcd, 0xe1, 0x84, 0x13, 0x30, 0x96, 0xf0, 0x03, 0xea, 0x4a, 0x3d, 0xc2])
    );
    assert_eq!(unprovisioned_uuid(Some("f0bf")), None);
    assert_eq!(unprovisioned_uuid(Some("g0bfd803cde184133096f003ea4a3dc2")), None);
}

#[test]
fn lowercase_text() {
    assert_eq!(to_ascii_lowercase("AbC-09Ü"), "abc-09Ü");
    assert_eq!(to_ascii_lower_char('Z'), 'z');
    assert_eq!(to_ascii_lower_char('['), '[');
}

#[test]
fn display_levels() {
    assert_eq!(display_brightness(-5), None);
    assert_eq!(display_brightness(0), None);
    assert_eq!(display_brightness(100), Some(100));
    assert_eq!(display_brightness(255), Some(255));
    assert_eq!(display_brightness(300), Some(255));
}

#[test]
fn speaker_and_blinker() {
    assert!(speaker_enabled(1));
    assert!(speaker_enabled(7));
    assert!(!speaker_enabled(0));
    assert!(blink_enabled(BlinkCommand::Start));
    assert!(!blink_enabled(BlinkCommand::Stop));
}

#[test]
fn button_messages() {
    assert_eq!(button_message(true, 3), OnOffSet { on_off: 1, tid: 3 });
    assert_eq!(button_message(false, 4), OnOffSet { on_off: 0, tid: 4 });
    assert_eq!(next_tid(4), 5);
    assert_eq!(next_tid(255), 0);
}

#[test]
fn battery_and_sensor_servers() {
    let status = battery_reading();
    assert_eq!(status.battery_level, 0);
    assert_eq!(status.flags.presence, BatteryPresence::Unknown);
    assert_eq!(status.flags.indicator, BatteryIndicator::Unknown);
    assert_eq!(status.flags.charging, BatteryCharging::Unknown);
    assert_eq!(battery_step(ModelInput::Get), ModelAction::ReplyBattery(status));
    assert_eq!(battery_step(ModelInput::Status), ModelAction::Ignore);
    assert_eq!(
        battery_step(ModelInput::Cadence(PublicationCadence::Periodic { millis: 60_000 })),
        ModelAction::SetTicker(Some(60_000))
    );
    assert_eq!(
        battery_step(ModelInput::Cadence(PublicationCadence::OnChange)),
        ModelAction::SetTicker(None)
    );
    assert_eq!(sensor_step(ModelInput::Get), ModelAction::Ignore);
    assert_eq!(
        sensor_step(ModelInput::Cadence(PublicationCadence::Disabled)),
        ModelAction::SetTicker(None)
    );
    assert_eq!(publish_period(PublicationCadence::Periodic { millis: 4000 }), Some(4000));
}

#[test]
fn sensor_readings() {
    let p = payload_from_readings(25, 1234, -1234, 5);
    assert_eq!(p.temperature, 50);
    assert_eq!(p.acceleration, Acceleration { x: 123, y: -123, z: 0 });
    assert_eq!(p.noise, 0);
    let p = payload_from_readings(-64, 400_000, -7, 0);
    assert_eq!(p.temperature, -128);
    assert_eq!(p.acceleration.x, (40_000i32) as i16);
    assert_eq!(p.acceleration.y, 0);
}

#[test]
fn sound_levels() {
    assert_eq!(sound_level(&[0, 160, -160]), 20);
    assert_eq!(sound_level(&[5]), 0);
    assert_eq!(sound_level(&[0, 4800]), 44);
}

#[test]
fn publications_go_to_the_group_label() {
    assert_eq!(decode_key("f0bfd803cde184133096f003ea4a3dc2").unwrap(), GROUP_LABEL);
    let p = publication(0x0100, 0, 0x100C, Some(60));
    assert_eq!(p.element_address, 0x0100);
    assert_eq!(p.label, GROUP_LABEL);
    assert_eq!(p.app_key_index, 0);
    assert!(!p.credential_flag);
    assert_eq!(p.publish_ttl, None);
    assert_eq!(p.period_secs, Some(60));
    assert_eq!(p.retransmit, 0);
    assert_eq!(p.model, 0x100C);
    assert_eq!(publication(0x0101, 0, 0x1001, None).period_secs, None);
}
