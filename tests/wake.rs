use lgtv_tray_remote::config::StreamingDeviceConfig;
use lgtv_tray_remote::wake::{
    debug_bridge_wake_plan, decode, http_wake_plan, magic_packet, normalize_mac, parse_mac,
    plan_wake, wake_on_lan_plan, WakeError, WakePlan,
};

fn expected_packet(mac: [u8; 6]) -> Vec<u8> {
    let mut p = vec![0xFFu8; 6];
    for _ in 0..16 {
        p.extend_from_slice(&mac);
    }
    p
}

#[test]
fn packet_for_colon_separated_mac() {
    let plan = wake_on_lan_plan("AA:BB:CC:DD:EE:FF", None).unwrap();
    assert_eq!(plan.packet.len(), 102);
    assert_eq!(plan.packet, expected_packet([0xAA, 0xBB, 0xCC, 0xDD, 0xEE, 0xFF]));
}

#[test]
fn packet_for_bare_and_dashed_mac() {
    let bare = wake_on_lan_plan("0123456789ab", None).unwrap();
    let dashed = wake_on_lan_plan("01-23-45-67-89-AB", None).unwrap();
    let expected = expected_packet([0x01, 0x23, 0x45, 0x67, 0x89, 0xAB]);
    assert_eq!(bare.packet, expected);
    assert_eq!(dashed.packet, expected);
}

#[test]
fn packet_layout_header_and_repetitions() {
    let plan = wake_on_lan_plan("10:20:30:40:50:60", None).unwrap();
    assert!(plan.packet[..6].iter().all(|b| *b == 0xFF));
    for k in 0..16 {
        assert_eq!(&plan.packet[6 + 6 * k..12 + 6 * k], &[0x10, 0x20, 0x30, 0x40, 0x50, 0x60]);
    }
}

#[test]
fn malformed_macs_are_rejected() {
    assert_eq!(wake_on_lan_plan("AA:BB:CC:DD:EE", None).err(), Some(WakeError::InvalidMacLength));
    assert_eq!(wake_on_lan_plan("AA:BB:CC:DD:EE:FF:00", None).err(), Some(WakeError::InvalidMacLength));
    assert_eq!(wake_on_lan_plan("AA:BB:CC:DD:EE:GG", None).err(), Some(WakeError::InvalidMac));
    assert_eq!(wake_on_lan_plan("AA:BB:CC:DD:EE:F", None).err(), Some(WakeError::InvalidMac));
    assert_eq!(wake_on_lan_plan("", None).err(), Some(WakeError::InvalidMacLength));
    assert_eq!(wake_on_lan_plan("AA BB CC DD EE FF", None).err(), Some(WakeError::InvalidMac));
}

#[test]
fn wake_error_messages() {
    assert_eq!(WakeError::InvalidMac.message(), "Invalid MAC address");
    assert_eq!(WakeError::InvalidMacLength.message(), "Invalid MAC address length");
}

#[test]
fn limited_broadcast_only_without_subnet() {
    let plan = wake_on_lan_plan("AA:BB:CC:DD:EE:FF", None).unwrap();
    assert_eq!(plan.primary_target, "255.255.255.255:9");
    assert!(plan.subnet_targets.is_empty());
}

#[test]
fn subnet_broadcast_is_trimmed_and_sent_to_ports_9_and_7() {
    let plan = wake_on_lan_plan("AA:BB:CC:DD:EE:FF", Some("  10.0.0.255 ")).unwrap();
    assert_eq!(plan.subnet_targets, vec!["10.0.0.255:9".to_string(), "10.0.0.255:7".to_string()]);
}

#[test]
fn subnet_broadcast_trims_unicode_white_space() {
    let plan = wake_on_lan_plan("AA:BB:CC:DD:EE:FF", Some("\u{3000}\t10.0.0.255\u{a0}")).unwrap();
    assert_eq!(plan.subnet_targets[0], "10.0.0.255:9");
}

#[test]
fn blank_subnet_broadcast_is_ignored() {
    let plan = wake_on_lan_plan("AA:BB:CC:DD:EE:FF", Some("   ")).unwrap();
    assert!(plan.subnet_targets.is_empty());
}

#[test]
fn wol_device_scenario() {
    let device = StreamingDeviceConfig::Wol { mac: "AA:BB:CC:DD:EE:FF".to_string(), broadcast_ip: None };
    match plan_wake(&device).unwrap() {
        WakePlan::MagicPacket { plan } => {
            assert_eq!(plan.packet.len(), 102);
            assert_eq!(plan.primary_target, "255.255.255.255:9");
            assert!(plan.subnet_targets.is_empty());
        }
        other => panic!("unexpected plan {:?}", other),
    }
}

#[test]
fn wol_device_with_bad_mac_plans_nothing() {
    let device = StreamingDeviceConfig::Wol { mac: "nope".to_string(), broadcast_ip: Some("10.0.0.255".to_string()) };
    assert_eq!(plan_wake(&device).err(), Some(WakeError::InvalidMac));
}

#[test]
fn http_control_request() {
    match http_wake_plan("192.168.1.20") {
        WakePlan::HttpControl { address, request } => {
            assert_eq!(address, "192.168.1.20:8060");
            assert_eq!(
                request,
                "POST /keypress/PowerOn HTTP/1.1\r\nHost: 192.168.1.20\r\nContent-Length: 0\r\nConnection: close\r\n\r\n"
            );
        }
        other => panic!("unexpected plan {:?}", other),
    }
}

#[test]
fn debug_bridge_default_port() {
    let device = StreamingDeviceConfig::Adb { ip: "10.0.0.9".to_string(), port: None };
    match plan_wake(&device).unwrap() {
        WakePlan::DebugBridge { connect_args, wake_args } => {
            assert_eq!(connect_args, vec!["connect", "10.0.0.9:5555"]);
            assert_eq!(wake_args, vec!["-s", "10.0.0.9:5555", "shell", "input", "keyevent", "KEYCODE_WAKEUP"]);
        }
        other => panic!("unexpected plan {:?}", other),
    }
}

#[test]
fn debug_bridge_given_port() {
    match debug_bridge_wake_plan("shield.local", Some(40)) {
        WakePlan::DebugBridge { connect_args, .. } => assert_eq!(connect_args[1], "shield.local:40"),
        other => panic!("unexpected plan {:?}", other),
    }
    match debug_bridge_wake_plan("h", Some(65535)) {
        WakePlan::DebugBridge { connect_args, .. } => assert_eq!(connect_args[1], "h:65535"),
        other => panic!("unexpected plan {:?}", other),
    }
}

#[test]
fn roku_device_plan() {
    let device = StreamingDeviceConfig::Roku { ip: "10.1.1.1".to_string() };
    assert!(matches!(plan_wake(&device).unwrap(), WakePlan::HttpControl { .. }));
}

#[test]
fn hex_decode() {
    assert_eq!(decode("00ff10Ab"), Ok(vec![0x00, 0xFF, 0x10, 0xAB]));
    assert_eq!(decode(""), Ok(vec![]));
    assert_eq!(decode("abc"), Err(()));
    assert_eq!(decode("zz"), Err(()));
    assert_eq!(decode("+f"), Err(()));
}

#[test]
fn mac_bytes() {
    assert_eq!(parse_mac("aa:bb:cc:dd:ee:ff"), Ok(vec![0xAA, 0xBB, 0xCC, 0xDD, 0xEE, 0xFF]));
}

#[test]
fn packet_from_bytes() {
    let p = magic_packet(&vec![1, 2, 3, 4, 5, 6]);
    assert_eq!(p, expected_packet([1, 2, 3, 4, 5, 6]));
}

#[test]
fn normalized_mac_entry() {
    assert_eq!(normalize_mac("aabbccddeeff"), Some("aa:bb:cc:dd:ee:ff".to_string()));
    assert_eq!(normalize_mac("AA-BB-CC DD:EE:FF"), Some("AA:BB:CC:DD:EE:FF".to_string()));
    assert_eq!(normalize_mac("AA:BB:CC:DD:EE"), None);
    assert_eq!(normalize_mac("AA:BB:CC:DD:EE:FG"), None);
}
