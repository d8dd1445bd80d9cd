use akko_hid::error::{AkkoError, TransportStep};
use akko_hid::text::{digit_text, push_decimal, push_hex_byte, push_hex_word, to_hex};

#[test]
fn hex_digits() {
    let expected = "0123456789ABCDEF";
    for n in 0..16u8 {
        assert_eq!(digit_text(n), &expected[n as usize..n as usize + 1]);
    }
}

#[test]
fn hex_of_every_byte_matches_the_standard_format() {
    for b in 0u16..=255 {
        let mut out = String::new();
        push_hex_byte(&mut out, b as u8);
        assert_eq!(out, format!("{:02X}", b));
    }
}

#[test]
fn hex_of_byte_strings() {
    assert_eq!(to_hex(&[]), "");
    assert_eq!(to_hex(&[0x0A]), "0A");
    assert_eq!(to_hex(&[0x8F, 0x00, 0x70]), "8F 00 70");
    assert_eq!(to_hex(&[0xDE, 0xAD, 0xBE, 0xEF]), "DE AD BE EF");
}

#[test]
fn hex_of_words() {
    for w in [0u16, 1, 0x3151, 0x5009, 0x4011, 0x00FF, 0xFF00, 0xFFFF] {
        let mut out = String::from("0x");
        push_hex_word(&mut out, w);
        assert_eq!(out, format!("0x{:04X}", w));
    }
}

#[test]
fn decimal_of_lengths() {
    for n in [0usize, 1, 9, 10, 63, 64, 65, 99, 100, 101, 1000, 65535, 4294967295] {
        let mut out = String::from("got ");
        push_decimal(&mut out, n);
        assert_eq!(out, format!("got {}", n));
    }
    let mut out = String::new();
    push_decimal(&mut out, usize::MAX);
    assert_eq!(out, usize::MAX.to_string());
}

#[test]
fn error_messages() {
    assert_eq!(
        AkkoError::DeviceNotFound { vendor_id: 0x3151, product_id: 0x5009 }.message(),
        "No device found with VID: 0x3151, PID: 0x5009"
    );
    assert_eq!(
        AkkoError::DeviceNotFound { vendor_id: 0x00AB, product_id: 0 }.message(),
        "No device found with VID: 0x00AB, PID: 0x0000"
    );
    assert_eq!(
        AkkoError::HidInitFailure(String::from("no backend")).message(),
        "Failed to init HID API: no backend"
    );
    assert_eq!(
        AkkoError::InterfaceOpenFailure(String::from("access denied")).message(),
        "Failed to open device: access denied"
    );
    assert_eq!(
        AkkoError::TransportIoError { step: TransportStep::Send, cause: String::from("stall") }
            .message(),
        "send_feature_report failed: stall (ensure 65-byte buffer)"
    );
    assert_eq!(
        AkkoError::TransportIoError { step: TransportStep::Receive, cause: String::from("stall") }
            .message(),
        "get_feature_report failed: stall"
    );
    assert_eq!(AkkoError::UnsupportedPacketSize(63).message(), "Packet must be 64 bytes, got 63");
    assert_eq!(AkkoError::UnsupportedPacketSize(0).message(), "Packet must be 64 bytes, got 0");
}
