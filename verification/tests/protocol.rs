use akko_hid::models::mod007b::Mod007bPackets;
use akko_hid::protocol::{
    calc_checksum, AkkoOpcode, AkkoPacket, PerformanceSettings, ProfileInfo, RgbSettings,
    PACKET_SIZE,
};

#[test]
fn test_checksum() {
    assert_eq!(calc_checksum(0x8F), 0x70);
    assert_eq!(calc_checksum(0xF0), 0x0F);
    assert_eq!(calc_checksum(0x80), 0x7F);
    assert_eq!(calc_checksum(0x87), 0x78);
}

#[test]
fn test_packet_builder() {
    let packet = AkkoPacket::with_opcode(AkkoOpcode::Handshake);
    assert_eq!(packet.as_bytes()[0], 0x8F);
    assert_eq!(packet.as_bytes()[7], 0x70);
    assert!(packet.is_checksum_valid());
}

#[test]
fn checksum_is_ff_minus_opcode_for_every_byte() {
    for o in 0u16..=255 {
        let o = o as u8;
        assert_eq!(calc_checksum(o), 0xFF - o);
        assert_eq!(calc_checksum(o) as u16 + o as u16, 0xFF);
    }
    assert_eq!(calc_checksum(0x00), 0xFF);
    assert_eq!(calc_checksum(0xFF), 0x00);
}

#[test]
fn opcode_round_trip_for_every_byte() {
    for b in 0u16..=255 {
        let b = b as u8;
        assert_eq!(u8::from(AkkoOpcode::from(b)), b);
    }
}

#[test]
fn catalogued_bytes_map_to_their_names() {
    let table: [(u8, AkkoOpcode, &str); 15] = [
        (0x8F, AkkoOpcode::Handshake, "Handshake"),
        (0xF0, AkkoOpcode::GetProfileCount, "GetProfileCount"),
        (0x80, AkkoOpcode::GetDeviceInfo, "GetDeviceInfo"),
        (0x07, AkkoOpcode::SetRgbSettings, "SetRgbSettings"),
        (0x87, AkkoOpcode::GetRgbSettings, "GetRgbSettings"),
        (0x88, AkkoOpcode::GetRgbMode, "GetRgbMode"),
        (0x92, AkkoOpcode::GetPerformance, "GetPerformance"),
        (0x84, AkkoOpcode::GetFnLockStatus, "GetFnLockStatus"),
        (0x91, AkkoOpcode::GetIndicatorLed, "GetIndicatorLed"),
        (0x97, AkkoOpcode::GetSleepSettings, "GetSleepSettings"),
        (0x86, AkkoOpcode::GetCustomRgb, "GetCustomRgb"),
        (0xAE, AkkoOpcode::GetMacroStatus, "GetMacroStatus"),
        (0xAD, AkkoOpcode::GetMacroData, "GetMacroData"),
        (0x85, AkkoOpcode::GetLayoutInfo, "GetLayoutInfo"),
        (0x9D, AkkoOpcode::GetBatteryStatus, "GetBatteryStatus"),
    ];
    for (byte, opcode, name) in table {
        assert_eq!(AkkoOpcode::from(byte), opcode);
        assert_eq!(u8::from(opcode), byte);
        assert_eq!(opcode.name(), name);
    }
}

#[test]
fn uncatalogued_bytes_map_to_unknown() {
    let known = [
        0x07u8, 0x8F, 0xF0, 0x80, 0x87, 0x88, 0x92, 0x84, 0x91, 0x97, 0x86, 0xAE, 0xAD, 0x85, 0x9D,
    ];
    let mut unknown = 0;
    for b in 0u16..=255 {
        let b = b as u8;
        if !known.contains(&b) {
            assert_eq!(AkkoOpcode::from(b), AkkoOpcode::Unknown(b));
            assert_eq!(AkkoOpcode::from(b).name(), "Unknown");
            unknown += 1;
        }
    }
    assert_eq!(unknown, 241);
    assert_eq!(AkkoOpcode::from(0x00), AkkoOpcode::Unknown(0x00));
    assert_eq!(AkkoOpcode::from(0xFF), AkkoOpcode::Unknown(0xFF));
}

#[test]
fn unknown_keeps_its_byte_even_when_catalogued() {
    assert_eq!(u8::from(AkkoOpcode::Unknown(0x42)), 0x42);
    assert_eq!(u8::from(AkkoOpcode::Unknown(0x8F)), 0x8F);
    assert_eq!(AkkoOpcode::from(u8::from(AkkoOpcode::Unknown(0x8F))), AkkoOpcode::Handshake);
}

#[test]
fn new_packet_is_all_zero() {
    let packet = AkkoPacket::new();
    assert_eq!(packet.as_bytes(), &[0u8; 64]);
    assert_eq!(AkkoPacket::default().as_bytes(), &[0u8; 64]);
    assert_eq!(PACKET_SIZE, 64);
}

#[test]
fn builder_checksum_for_every_catalogued_opcode() {
    let opcodes = [
        AkkoOpcode::Handshake,
        AkkoOpcode::GetProfileCount,
        AkkoOpcode::GetDeviceInfo,
        AkkoOpcode::SetRgbSettings,
        AkkoOpcode::GetRgbSettings,
        AkkoOpcode::GetRgbMode,
        AkkoOpcode::GetPerformance,
        AkkoOpcode::GetFnLockStatus,
        AkkoOpcode::GetIndicatorLed,
        AkkoOpcode::GetSleepSettings,
        AkkoOpcode::GetCustomRgb,
        AkkoOpcode::GetMacroStatus,
        AkkoOpcode::GetMacroData,
        AkkoOpcode::GetLayoutInfo,
        AkkoOpcode::GetBatteryStatus,
    ];
    for opcode in opcodes {
        let packet = AkkoPacket::with_opcode(opcode);
        assert_eq!(packet.checksum(), 0xFF - u8::from(opcode));
        assert_eq!(packet.opcode(), opcode);
        assert!(packet.is_checksum_valid());
        for i in 0..64 {
            if i != 0 && i != 7 {
                assert_eq!(packet.as_bytes()[i], 0);
            }
        }
    }
}

#[test]
fn builder_for_unknown_opcode() {
    let packet = AkkoPacket::with_opcode(AkkoOpcode::Unknown(0x00));
    assert_eq!(packet.as_bytes()[0], 0x00);
    assert_eq!(packet.as_bytes()[7], 0xFF);
    let packet = AkkoPacket::with_opcode(AkkoOpcode::Unknown(0xFF));
    assert_eq!(packet.as_bytes()[0], 0xFF);
    assert_eq!(packet.as_bytes()[7], 0x00);
    assert_eq!(packet.opcode(), AkkoOpcode::Unknown(0xFF));
}

#[test]
fn builder_with_params() {
    let packet = AkkoPacket::with_opcode_params(AkkoOpcode::GetRgbMode, 0x12, 0x34);
    let mut expected = [0u8; 64];
    expected[0] = 0x88;
    expected[1] = 0x12;
    expected[2] = 0x34;
    expected[7] = 0x77;
    assert_eq!(packet.as_bytes(), &expected);
    assert_eq!(packet.params(), (0x12, 0x34));
    assert_eq!(packet.checksum(), 0x77);
    assert!(packet.is_checksum_valid());
}

#[test]
fn from_bytes_pads_short_input() {
    let packet = AkkoPacket::from_bytes(&[0x87, 1, 2, 3]);
    let mut expected = [0u8; 64];
    expected[..4].copy_from_slice(&[0x87, 1, 2, 3]);
    assert_eq!(packet.as_bytes(), &expected);
    assert_eq!(packet.opcode(), AkkoOpcode::GetRgbSettings);
    assert_eq!(AkkoPacket::from_bytes(&[]).as_bytes(), &[0u8; 64]);
}

#[test]
fn from_bytes_cuts_long_input() {
    let long: Vec<u8> = (0..100u8).collect();
    let packet = AkkoPacket::from_bytes(&long);
    let expected: Vec<u8> = (0..64u8).collect();
    assert_eq!(packet.as_bytes().to_vec(), expected);
    let exact: Vec<u8> = (100..164u8).collect();
    assert_eq!(AkkoPacket::from_bytes(&exact).as_bytes().to_vec(), exact);
}

#[test]
fn checksum_validity_follows_bytes_0_and_7() {
    let mut bytes = [0u8; 64];
    bytes[0] = 0x8F;
    bytes[7] = 0x70;
    assert!(AkkoPacket::from_bytes(&bytes).is_checksum_valid());
    bytes[7] = 0x71;
    assert!(!AkkoPacket::from_bytes(&bytes).is_checksum_valid());
    assert!(!AkkoPacket::new().is_checksum_valid());
}

#[test]
fn has_data_reads_bytes_1_to_6() {
    assert!(!AkkoPacket::new().has_data());
    for i in 0..64 {
        let mut bytes = [0u8; 64];
        bytes[i] = 1;
        let expected = (1..=6).contains(&i);
        assert_eq!(AkkoPacket::from_bytes(&bytes).has_data(), expected);
    }
    assert!(!AkkoPacket::with_opcode(AkkoOpcode::Handshake).has_data());
    assert!(AkkoPacket::with_opcode_params(AkkoOpcode::Handshake, 0, 9).has_data());
}

#[test]
fn payload_is_bytes_8_to_63() {
    let bytes: Vec<u8> = (0..64u8).collect();
    let packet = AkkoPacket::from_bytes(&bytes);
    let expected: Vec<u8> = (8..64u8).collect();
    assert_eq!(packet.payload(), &expected[..]);
    assert_eq!(packet.payload().len(), 56);
}

#[test]
fn set_payload_overwrites_from_offset_8() {
    let mut packet = AkkoPacket::with_opcode(AkkoOpcode::GetMacroData);
    packet.set_payload(&[1, 2, 3]);
    let mut expected = [0u8; 64];
    expected[0] = 0xAD;
    expected[7] = 0x52;
    expected[8] = 1;
    expected[9] = 2;
    expected[10] = 3;
    assert_eq!(packet.as_bytes(), &expected);
    packet.set_payload(&[9]);
    expected[8] = 9;
    assert_eq!(packet.as_bytes(), &expected);
    packet.set_payload(&[]);
    assert_eq!(packet.as_bytes(), &expected);
}

#[test]
fn set_payload_leaves_out_what_does_not_fit() {
    let mut packet = AkkoPacket::with_opcode(AkkoOpcode::Handshake);
    let long: Vec<u8> = (1..=100u8).collect();
    packet.set_payload(&long);
    assert_eq!(packet.as_bytes()[0], 0x8F);
    assert_eq!(packet.as_bytes()[7], 0x70);
    let expected: Vec<u8> = (1..=56u8).collect();
    assert_eq!(packet.payload(), &expected[..]);
}

#[test]
fn as_bytes_mut_writes_through() {
    let mut packet = AkkoPacket::new();
    packet.as_bytes_mut()[5] = 0xAA;
    assert_eq!(packet.as_bytes()[5], 0xAA);
    assert!(packet.has_data());
}

#[test]
fn hex_string_of_a_packet() {
    let packet = AkkoPacket::with_opcode(AkkoOpcode::Handshake);
    let mut expected = String::from("8F 00 00 00 00 00 00 70");
    for _ in 8..64 {
        expected.push_str(" 00");
    }
    assert_eq!(packet.to_hex_string(), expected);
    assert_eq!(packet.to_hex_string().len(), 64 * 3 - 1);
}

#[test]
fn hex_short_is_the_first_sixteen_bytes() {
    let bytes: Vec<u8> = (0..64u8).map(|i| i.wrapping_mul(17)).collect();
    let packet = AkkoPacket::from_bytes(&bytes);
    assert_eq!(packet.to_hex_short(), "00 11 22 33 44 55 66 77 88 99 AA BB CC DD EE FF");
    assert_eq!(
        AkkoPacket::with_opcode(AkkoOpcode::GetProfileCount).to_hex_short(),
        "F0 00 00 00 00 00 00 0F 00 00 00 00 00 00 00 00"
    );
}

#[test]
fn rgb_settings_from_response() {
    let settings = RgbSettings::from_response(&[0x87, 7, 3, 1, 0, 255, 128, 64]).unwrap();
    assert_eq!(settings.mode, 7);
    assert_eq!(settings.speed, 3);
    assert_eq!(settings.direction, 1);
    assert_eq!(settings.color, (255, 128, 64));
    assert!(RgbSettings::from_response(&[0x87, 7, 3, 1, 0, 255, 128]).is_none());
    assert!(RgbSettings::from_response(&[0x88, 7, 3, 1, 0, 255, 128, 64]).is_none());
    assert!(RgbSettings::from_response(&[]).is_none());
    let mut long = [0u8; 64];
    long[0] = 0x87;
    long[4] = 99;
    long[7] = 5;
    assert_eq!(
        RgbSettings::from_response(&long),
        Some(RgbSettings { mode: 0, speed: 0, direction: 0, color: (0, 0, 5) })
    );
}

#[test]
fn performance_settings_from_response() {
    assert_eq!(
        PerformanceSettings::from_response(&[0x92, 5, 0, 9]),
        Some(PerformanceSettings { debounce_down: 5, debounce_up: 9 })
    );
    assert!(PerformanceSettings::from_response(&[0x92, 5, 0]).is_none());
    assert!(PerformanceSettings::from_response(&[0x91, 5, 0, 9]).is_none());
}

#[test]
fn profile_info_from_response() {
    assert_eq!(
        ProfileInfo::from_response(&[0xF0, 3, 1]),
        Some(ProfileInfo { count: 3, active: 1 })
    );
    assert!(ProfileInfo::from_response(&[0xF0, 3]).is_none());
    assert!(ProfileInfo::from_response(&[0x0F, 3, 1]).is_none());
}

#[test]
fn mod007b_handshake_packet() {
    let packet = Mod007bPackets::handshake();
    let mut expected = [0u8; 64];
    expected[0] = 143;
    expected[7] = 112;
    assert_eq!(packet, expected);
    assert_eq!(&packet, AkkoPacket::with_opcode(AkkoOpcode::Handshake).as_bytes());
    assert_eq!(packet[0], 143);
    assert_eq!(packet[7], 112);
}
