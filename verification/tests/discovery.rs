//! Discovery tests: packet layout, response parsing, deduplication, hex
//! text and interface selection.

use remote_bridge::checksum::checksum;
use remote_bridge::discovery::{
    build_discovery_packet, build_probe_packet, format_mac, get_device_model, hex_u16_string,
    merge_discovered, parse_discovery_response, take_until_nul, DiscoveredDevice,
};
use remote_bridge::error::ProtoError;
use remote_bridge::hexstr::{hex_decode, hex_encode};
use remote_bridge::netif::{collect_addresses, get_local_addresses, usable_interface};

fn response(devtype: u16, mac: [u8; 6], name: &[u8]) -> Vec<u8> {
    let mut r = vec![0u8; 0x40];
    r[0x34] = (devtype & 0xff) as u8;
    r[0x35] = (devtype >> 8) as u8;
    r[0x3a..0x40].copy_from_slice(&mac);
    r.extend_from_slice(name);
    r
}

#[test]
fn discovery_packet_layout() {
    let p = build_discovery_packet(&[192, 168, 1, 10]);
    assert_eq!(p.len(), 0x30);
    // Year 2024 little-endian, hour 12, weekday/day/month 1.
    assert_eq!(p[0x0c], 0xe8);
    assert_eq!(p[0x0d], 0x07);
    assert_eq!(p[0x10], 12);
    assert_eq!(p[0x11], 1);
    assert_eq!(p[0x12], 1);
    assert_eq!(p[0x13], 1);
    assert_eq!(&p[0x18..0x1c], &[192, 168, 1, 10]);
    assert_eq!(p[0x26], 0x06);
    let stored = p[0x20] as u16 | ((p[0x21] as u16) << 8);
    let mut zeroed = p.clone();
    zeroed[0x20] = 0;
    zeroed[0x21] = 0;
    assert_eq!(checksum(&zeroed), stored);
}

#[test]
fn probe_packet_checksum_by_hand() {
    // All zero except the opcode byte: the checksum is the seed plus 6.
    let p = build_probe_packet(&[0, 0, 0, 0]);
    assert_eq!(p.len(), 0x30);
    assert_eq!(p[0x26], 0x06);
    assert_eq!(p[0x20], 0xb5);
    assert_eq!(p[0x21], 0xbe);
}

#[test]
fn parse_response_reads_type_mac_and_name() {
    let resp = response(0x520b, [0xe8, 0x16, 0x56, 0x0a, 0x0b, 0x0c], b"Living Room\0junk");
    let d = parse_discovery_response(&resp, "192.168.1.55".to_string()).unwrap();
    assert_eq!(d.device_type, "0x520b");
    assert_eq!(d.model, "RM4 Mini");
    assert_eq!(d.host, "192.168.1.55");
    assert_eq!(d.mac, "e8:16:56:0a:0b:0c");
    assert_eq!(d.name, "Living Room");
}

#[test]
fn parse_response_name_falls_back_to_model() {
    let resp = response(0x2737, [1, 2, 3, 4, 5, 6], b"");
    let d = parse_discovery_response(&resp, "10.0.0.9".to_string()).unwrap();
    assert_eq!(d.model, "RM Mini 3");
    assert_eq!(d.name, "RM Mini 3");
}

#[test]
fn parse_response_lossy_name() {
    // An invalid UTF-8 byte becomes the replacement character.
    let resp = response(0x520b, [1, 2, 3, 4, 5, 6], &[0x41, 0xff, 0x42, 0x00]);
    let d = parse_discovery_response(&resp, "10.0.0.9".to_string()).unwrap();
    assert_eq!(d.name, "A\u{fffd}B");
}

#[test]
fn parse_response_too_short_is_none() {
    assert!(parse_discovery_response(&[0u8; 0x3f], "10.0.0.1".to_string()).is_none());
}

#[test]
fn unknown_device_type_maps_to_unknown() {
    assert_eq!(get_device_model(0x0001), ("Unknown", "Unknown"));
    assert_eq!(get_device_model(0x2737), ("RM Mini 3", "Remote"));
    assert_eq!(get_device_model(0x7547), ("SP Mini", "Plug"));
}

#[test]
fn same_mac_from_two_interfaces_is_reported_once() {
    let resp = response(0x520b, [0xaa, 0xbb, 0xcc, 0xdd, 0xee, 0xff], b"Bridge\0");
    let from_if1 = parse_discovery_response(&resp, "192.168.1.55".to_string()).unwrap();
    let from_if2 = parse_discovery_response(&resp, "10.0.0.55".to_string()).unwrap();
    let mut all: Vec<DiscoveredDevice> = Vec::new();
    merge_discovered(&mut all, vec![from_if1]);
    merge_discovered(&mut all, vec![from_if2]);
    assert_eq!(all.len(), 1);
    // The record seen first wins.
    assert_eq!(all[0].host, "192.168.1.55");
}

#[test]
fn different_macs_are_both_kept() {
    let a = parse_discovery_response(
        &response(0x520b, [1, 2, 3, 4, 5, 6], b"A\0"),
        "10.0.0.1".to_string(),
    )
    .unwrap();
    let b = parse_discovery_response(
        &response(0x2711, [6, 5, 4, 3, 2, 1], b"B\0"),
        "10.0.0.2".to_string(),
    )
    .unwrap();
    let mut all: Vec<DiscoveredDevice> = Vec::new();
    merge_discovered(&mut all, vec![a, b]);
    assert_eq!(all.len(), 2);
}

#[test]
fn format_mac_is_colon_hex() {
    assert_eq!(format_mac(&[0xe8, 0x16, 0x56, 0x00, 0x0b, 0xff]), "e8:16:56:00:0b:ff");
}

#[test]
fn hex_u16_string_pads_to_four_digits() {
    assert_eq!(hex_u16_string(0x520b), "0x520b");
    assert_eq!(hex_u16_string(0x000a), "0x000a");
    assert_eq!(hex_u16_string(0xffff), "0xffff");
}

#[test]
fn take_until_nul_stops_at_zero() {
    assert_eq!(take_until_nul(b"abc\0def"), b"abc".to_vec());
    assert_eq!(take_until_nul(b"\0def"), Vec::<u8>::new());
    assert_eq!(take_until_nul(b"abc"), b"abc".to_vec());
    assert_eq!(take_until_nul(b""), Vec::<u8>::new());
}

#[test]
fn hex_encode_exact() {
    assert_eq!(hex_encode(&[]), "");
    assert_eq!(hex_encode(&[0x00, 0xab, 0x5f]), "00ab5f");
}

#[test]
fn hex_decode_exact_and_errors() {
    assert_eq!(hex_decode("00ab5f").unwrap(), vec![0x00, 0xab, 0x5f]);
    assert_eq!(hex_decode("00AB5F").unwrap(), vec![0x00, 0xab, 0x5f]);
    assert_eq!(hex_decode("").unwrap(), Vec::<u8>::new());
    assert!(matches!(hex_decode("abc"), Err(ProtoError::Malformed)));
    assert!(matches!(hex_decode("zz"), Err(ProtoError::Malformed)));
}

#[test]
fn virtual_interfaces_are_skipped() {
    assert!(!usable_interface("docker0", false));
    assert!(!usable_interface("veth12ab", false));
    assert!(!usable_interface("br-9f2a", false));
    assert!(!usable_interface("virbr0", false));
    assert!(!usable_interface("vEthernet (WSL)", false));
    assert!(!usable_interface("vEthernet (Default Switch)", false));
    assert!(!usable_interface("VirtualBox Host-Only", false));
    assert!(!usable_interface("lo", true));
}

#[test]
fn external_switch_is_kept_despite_virtual_name() {
    assert!(usable_interface("vEthernet (External Switch)", false));
}

#[test]
fn physical_interfaces_are_kept() {
    assert!(usable_interface("eth0", false));
    assert!(usable_interface("Ethernet", false));
    assert!(usable_interface("en0", false));
}

#[test]
fn collect_addresses_dedups_and_skips_loopback() {
    let ips = vec![
        "192.168.1.5".to_string(),
        "127.0.0.1".to_string(),
        "192.168.1.5".to_string(),
        "10.0.0.7".to_string(),
    ];
    let all = collect_addresses(ips);
    assert_eq!(all, vec!["127.0.0.1", "192.168.1.5", "10.0.0.7"]);
}

#[test]
fn local_addresses_start_with_localhost() {
    let all = get_local_addresses();
    assert!(!all.is_empty());
    assert_eq!(all[0], "127.0.0.1");
    for i in 0..all.len() {
        for j in (i + 1)..all.len() {
            assert_ne!(all[i], all[j]);
        }
    }
}
