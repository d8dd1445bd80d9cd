use akko_hid::api::{
    akko_get_performance, akko_get_profile_count, akko_get_rgb_mode, akko_get_rgb_settings,
    akko_run_all, akko_send_raw, packet_from_raw,
};
use akko_hid::detector::detect_akko_devices;
use akko_hid::hid::{
    candidates_for, find_matching, frame_report, opened_or_failure, unframe_report, AkkoHidDevice,
    InterfaceProbe, BUFFER_SIZE, REPORT_ID,
};
use hidapi::HidError;
use akko_hid::{akko_handshake, AkkoError, AkkoModel};

#[test]
fn model_table() {
    assert_eq!(AkkoModel::Mod007b.vid(), 0x3151);
    assert_eq!(AkkoModel::Mod007b.pid(), 0x5009);
    assert_eq!(AkkoModel::Akko24GWireless.vid(), 0x3151);
    assert_eq!(AkkoModel::Akko24GWireless.pid(), 0x4011);
    assert_eq!(AkkoModel::Mod007b.name(), "MOD007B");
    assert_eq!(AkkoModel::Akko24GWireless.name(), "Akko 2.4G Wireless Keyboard");
}

#[test]
fn model_from_str_ignores_case() {
    assert_eq!(AkkoModel::from_str("mod007b"), Some(AkkoModel::Mod007b));
    assert_eq!(AkkoModel::from_str("MOD007B"), Some(AkkoModel::Mod007b));
    assert_eq!(AkkoModel::from_str("Mod007B"), Some(AkkoModel::Mod007b));
    assert_eq!(AkkoModel::from_str("akko24gwireless"), Some(AkkoModel::Akko24GWireless));
    assert_eq!(AkkoModel::from_str("Akko24GWireless"), Some(AkkoModel::Akko24GWireless));
    assert_eq!(
        AkkoModel::from_str("Akko 2.4G Wireless Keyboard"),
        Some(AkkoModel::Akko24GWireless)
    );
    assert_eq!(AkkoModel::from_str(""), None);
    assert_eq!(AkkoModel::from_str("mod007"), None);
    assert_eq!(AkkoModel::from_str(" mod007b"), None);
    assert_eq!(AkkoModel::from_str("akko"), None);
}

#[test]
fn model_from_str_accepts_its_own_names() {
    for model in [AkkoModel::Mod007b, AkkoModel::Akko24GWireless] {
        assert_eq!(AkkoModel::from_str(model.name()), Some(model));
    }
}

#[test]
fn model_from_lowercase_is_exact() {
    assert_eq!(AkkoModel::from_lowercase("mod007b"), Some(AkkoModel::Mod007b));
    assert_eq!(AkkoModel::from_lowercase("MOD007B"), None);
    assert_eq!(AkkoModel::from_lowercase("akko24gwireless"), Some(AkkoModel::Akko24GWireless));
    assert_eq!(
        AkkoModel::from_lowercase("akko 2.4g wireless keyboard"),
        Some(AkkoModel::Akko24GWireless)
    );
    assert_eq!(AkkoModel::from_lowercase("Akko 2.4G Wireless Keyboard"), None);
}

#[test]
fn models_present_among_listed_ids() {
    let none: Vec<(u16, u16)> = vec![(0x046D, 0xC52B), (0x3151, 0x0001), (0x0001, 0x5009)];
    assert_eq!(AkkoModel::present_among(&none), vec![]);
    assert_eq!(AkkoModel::present_among(&Vec::new()), vec![]);
    let wired = vec![(0x046D, 0xC52B), (0x3151, 0x5009), (0x3151, 0x5009), (0x3151, 0x5009)];
    assert_eq!(AkkoModel::present_among(&wired), vec![AkkoModel::Mod007b]);
    let wireless = vec![(0x3151, 0x4011)];
    assert_eq!(AkkoModel::present_among(&wireless), vec![AkkoModel::Akko24GWireless]);
    let both = vec![(0x3151, 0x4011), (0x3151, 0x5009), (0x3151, 0x4011)];
    assert_eq!(
        AkkoModel::present_among(&both),
        vec![AkkoModel::Mod007b, AkkoModel::Akko24GWireless]
    );
}

#[test]
fn detection_reports_each_model_at_most_once_in_table_order() {
    let found = detect_akko_devices();
    let allowed: [Vec<AkkoModel>; 4] = [
        vec![],
        vec![AkkoModel::Mod007b],
        vec![AkkoModel::Akko24GWireless],
        vec![AkkoModel::Mod007b, AkkoModel::Akko24GWireless],
    ];
    assert!(allowed.contains(&found));
}

#[test]
fn matching_interfaces_in_list_order() {
    let ids = vec![(1, 2), (0x3151, 0x5009), (3, 4), (0x3151, 0x5009), (0x3151, 0x4011)];
    assert_eq!(find_matching(&ids, 0x3151, 0x5009), vec![1, 3]);
    assert_eq!(find_matching(&ids, 0x3151, 0x4011), vec![4]);
    assert_eq!(find_matching(&ids, 1, 2), vec![0]);
    assert_eq!(find_matching(&ids, 2, 1), Vec::<usize>::new());
    assert_eq!(find_matching(&ids, 0x3151, 4), Vec::<usize>::new());
    assert_eq!(find_matching(&Vec::new(), 0x3151, 0x5009), Vec::<usize>::new());
}

#[test]
fn report_framing_adds_the_report_id() {
    let packet: Vec<u8> = (1..=64u8).collect();
    let mut array = [0u8; 64];
    array.copy_from_slice(&packet);
    let report = frame_report(&array);
    assert_eq!(report.len(), 65);
    assert_eq!(BUFFER_SIZE, 65);
    assert_eq!(report[0], REPORT_ID);
    assert_eq!(report[0], 0);
    assert_eq!(&report[1..], &packet[..]);
}

#[test]
fn report_unframing_strips_the_report_id() {
    let mut report = [0u8; 65];
    for i in 0..65 {
        report[i] = i as u8 + 100;
    }
    let expected: Vec<u8> = (101..=164u8).collect();
    assert_eq!(unframe_report(&report, 65), expected);
    assert_eq!(unframe_report(&report, 2), expected);
    assert_eq!(unframe_report(&report, 1000), expected);
}

#[test]
fn degraded_read_gives_an_all_zero_packet() {
    let report = [0xEEu8; 65];
    assert_eq!(unframe_report(&report, 1), vec![0u8; 64]);
    assert_eq!(unframe_report(&report, 0), vec![0u8; 64]);
}

#[test]
fn raw_packet_of_wrong_length_is_rejected() {
    assert_eq!(packet_from_raw(&[0u8; 63]), Err(AkkoError::UnsupportedPacketSize(63)));
    assert_eq!(packet_from_raw(&[0u8; 65]), Err(AkkoError::UnsupportedPacketSize(65)));
    assert_eq!(packet_from_raw(&[]), Err(AkkoError::UnsupportedPacketSize(0)));
    let bytes: Vec<u8> = (0..64u8).collect();
    let mut expected = [0u8; 64];
    expected.copy_from_slice(&bytes);
    assert_eq!(packet_from_raw(&bytes), Ok(expected));
}

#[test]
fn raw_send_rejects_wrong_length_before_any_device_call() {
    for model in [AkkoModel::Mod007b, AkkoModel::Akko24GWireless] {
        assert_eq!(akko_send_raw(model, &[0u8; 63]), Err(AkkoError::UnsupportedPacketSize(63)));
        assert_eq!(akko_send_raw(model, &[0u8; 65]), Err(AkkoError::UnsupportedPacketSize(65)));
    }
}

#[test]
fn unknown_vendor_product_pair_is_not_found() {
    match AkkoHidDevice::open(0xFFFE, 0xFFFD) {
        Err(e) => {
            assert_eq!(e, AkkoError::DeviceNotFound { vendor_id: 0xFFFE, product_id: 0xFFFD });
            assert_eq!(e.message(), "No device found with VID: 0xFFFE, PID: 0xFFFD");
        }
        Ok(_) => panic!("no such device can be attached"),
    }
}

fn is_link_error(e: &AkkoError, model: AkkoModel) -> bool {
    match e {
        AkkoError::HidInitFailure(_) => true,
        AkkoError::DeviceNotFound { vendor_id, product_id } => {
            *vendor_id == model.vid() && *product_id == model.pid()
        }
        AkkoError::InterfaceOpenFailure(_) => true,
        AkkoError::TransportIoError { .. } => true,
        AkkoError::UnsupportedPacketSize(_) => false,
    }
}

#[test]
fn reading_operations_end_in_a_reply_or_a_link_error() {
    let model = AkkoModel::Akko24GWireless;
    match akko_handshake(model) {
        Ok(response) => assert_eq!(response.len(), 64),
        Err(e) => assert!(is_link_error(&e, model)),
    }
    match akko_run_all(model) {
        Ok(results) => {
            assert!(results.len() <= 10);
            for result in results {
                assert_eq!(result.response.len(), 64);
            }
        }
        Err(e) => assert!(is_link_error(&e, model)),
    }
    let commands = [
        (akko_get_profile_count(model), 0xF0u8, "GetProfileCount"),
        (akko_get_rgb_settings(model), 0x87, "GetRgbSettings"),
        (akko_get_rgb_mode(model), 0x88, "GetRgbMode"),
        (akko_get_performance(model), 0x92, "GetPerformance"),
    ];
    for (outcome, opcode, name) in commands {
        match outcome {
            Ok(result) => {
                assert_eq!(result.opcode, opcode);
                assert_eq!(result.opcode_name, name);
                assert_eq!(result.response.len(), 64);
            }
            Err(e) => assert!(is_link_error(&e, model)),
        }
    }
}

#[test]
fn candidates_for_an_unknown_pair_are_not_found() {
    let ids = vec![(1, 2), (0x3151, 0x5009), (3, 4)];
    assert_eq!(
        candidates_for(&ids, 0x3151, 0x4011),
        Err(AkkoError::DeviceNotFound { vendor_id: 0x3151, product_id: 0x4011 })
    );
    assert_eq!(
        candidates_for(&Vec::new(), 0x3151, 0x5009),
        Err(AkkoError::DeviceNotFound { vendor_id: 0x3151, product_id: 0x5009 })
    );
}

#[test]
fn candidates_keep_the_list_order() {
    let ids = vec![(0x3151, 0x5009), (1, 2), (0x3151, 0x5009), (0x3151, 0x5009)];
    assert_eq!(candidates_for(&ids, 0x3151, 0x5009), Ok(vec![0, 2, 3]));
    assert_eq!(candidates_for(&ids, 1, 2), Ok(vec![1]));
}

#[test]
fn a_read_that_succeeds_answers_and_one_that_fails_is_silent() {
    assert_eq!(InterfaceProbe::from_read(&Ok(65)), InterfaceProbe::Answers);
    assert_eq!(InterfaceProbe::from_read(&Ok(0)), InterfaceProbe::Answers);
    assert_eq!(
        InterfaceProbe::from_read(&Err(HidError::HidApiErrorEmpty)),
        InterfaceProbe::Silent
    );
    assert_eq!(
        InterfaceProbe::from_read(&Err(HidError::HidApiError { message: String::from("stall") })),
        InterfaceProbe::Silent
    );
}

#[test]
fn a_failed_open_is_reported_with_its_cause() {
    let failed = opened_or_failure(Err(HidError::HidApiError {
        message: String::from("failed to open device with path /dev/hidraw0: denied"),
    }));
    match failed {
        Err(e) => {
            assert_eq!(
                e,
                AkkoError::InterfaceOpenFailure(String::from(
                    "hidapi error: failed to open device with path /dev/hidraw0: denied"
                ))
            );
            assert_eq!(
                e.message(),
                "Failed to open device: hidapi error: failed to open device with path /dev/hidraw0: denied"
            );
        }
        Ok(_) => panic!("a failed open gives no handle"),
    }
    match opened_or_failure(Err(HidError::InitializationError)) {
        Err(e) => assert_eq!(
            e,
            AkkoError::InterfaceOpenFailure(String::from("Failed to initialize hidapi"))
        ),
        Ok(_) => panic!("a failed open gives no handle"),
    }
}
