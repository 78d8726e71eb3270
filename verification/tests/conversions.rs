use esp_ieee802154::frame::{ieee802154_frame_get_version, ieee802154_frame_is_ack_required};
use esp_ieee802154::util::{
    channel_to_freq, freq_to_channel, ieee802154_txpower_convert, rssi_to_lqi, u64_to_be_bytes,
};

#[test]
fn channel_freq_roundtrip_all_channels() {
    for channel in 11u8..=26 {
        let freq = channel_to_freq(channel);
        assert_eq!(freq, (channel - 11) * 5 + 3);
        assert_eq!(freq_to_channel(freq), channel);
    }
}

#[test]
fn channel_to_freq_endpoints() {
    assert_eq!(channel_to_freq(11), 3);
    assert_eq!(channel_to_freq(15), 23);
    assert_eq!(channel_to_freq(26), 78);
}

#[test]
fn txpower_saturates_high() {
    assert_eq!(ieee802154_txpower_convert(14), 15);
    assert_eq!(ieee802154_txpower_convert(127), 15);
}

#[test]
fn txpower_saturates_low() {
    assert_eq!(ieee802154_txpower_convert(-40), 0);
    assert_eq!(ieee802154_txpower_convert(-128), 0);
}

#[test]
fn txpower_linear_range() {
    assert_eq!(ieee802154_txpower_convert(10), 14);
    assert_eq!(ieee802154_txpower_convert(-32), 0);
    assert_eq!(ieee802154_txpower_convert(13), 15);
    assert_eq!(ieee802154_txpower_convert(0), 10);
}

#[test]
fn txpower_is_monotonic() {
    let mut prev = ieee802154_txpower_convert(-128);
    for dbm in -127i16..=127 {
        let code = ieee802154_txpower_convert(dbm as i8);
        assert!(code >= prev);
        prev = code;
    }
}

#[test]
fn lqi_boundaries() {
    assert_eq!(rssi_to_lqi(-90), 0);
    assert_eq!(rssi_to_lqi(-20), 255);
    assert_eq!(rssi_to_lqi(-80), 0);
    assert_eq!(rssi_to_lqi(-30), 255);
}

#[test]
fn lqi_is_monotonic() {
    let mut prev = rssi_to_lqi(-128);
    for rssi in -127i16..=127 {
        let lqi = rssi_to_lqi(rssi as i8);
        assert!(lqi >= prev);
        prev = lqi;
    }
}

#[test]
fn lqi_linear_value() {
    // -55 dBm: ((-55 + 80) * 255) / 50 = 127
    assert_eq!(rssi_to_lqi(-55), 127);
}

#[test]
fn be_bytes_of_u64() {
    assert_eq!(
        u64_to_be_bytes(0x1122334455667788),
        [0x11, 0x22, 0x33, 0x44, 0x55, 0x66, 0x77, 0x88]
    );
    assert_eq!(u64_to_be_bytes(0), [0; 8]);
}

#[test]
fn frame_ack_request_bit() {
    assert!(ieee802154_frame_is_ack_required(&[0x61, 0x20, 0x00]));
    assert!(!ieee802154_frame_is_ack_required(&[0x61, 0x00, 0x00]));
    assert!(!ieee802154_frame_is_ack_required(&[0x61, 0xDF, 0x00]));
}

#[test]
fn frame_version_field() {
    assert_eq!(ieee802154_frame_get_version(&[0x00, 0x00, 0x00]), 0x00);
    assert_eq!(ieee802154_frame_get_version(&[0x00, 0x00, 0x10]), 0x10);
    assert_eq!(ieee802154_frame_get_version(&[0x00, 0x00, 0x20]), 0x20);
    assert_eq!(ieee802154_frame_get_version(&[0x00, 0x00, 0xFF]), 0x30);
}
