use mt7603u_logic::ap::{build_assoc_resp, build_beacon, parse_assoc_req};
use mt7603u_logic::sta::parse_beacon;

#[test]
fn test_build_beacon_frame() {
    let ssid = b"MT7603U-Hotspot";
    let bssid = [0x00, 0x0C, 0x43, 0x76, 0x03, 0x01];
    let mut out_buf = [0u8; 128];

    let res = build_beacon(ssid, &bssid, 6, &mut out_buf);
    assert!(res.is_ok());
    let len = res.unwrap();
    assert!(len >= 48);

    // Frame Control: 0x0080
    assert_eq!(out_buf[0], 0x80);
    assert_eq!(out_buf[1], 0x00);
    // Destination Broadcast
    assert_eq!(&out_buf[4..10], &[0xFF; 6]);
    // BSSID
    assert_eq!(&out_buf[10..16], &bssid);
    // SSID IE
    assert_eq!(out_buf[36], 0); // Element ID SSID
    assert_eq!(out_buf[37], 15);
    assert_eq!(&out_buf[38..53], b"MT7603U-Hotspot");
}

#[test]
fn test_build_assoc_resp() {
    let sta_mac = [0xAA, 0xBB, 0xCC, 0xDD, 0xEE, 0xFF];
    let bssid = [0x00, 0x0C, 0x43, 0x76, 0x03, 0x01];
    let mut out_buf = [0u8; 128];

    let res = build_assoc_resp(&sta_mac, &bssid, 1, 0, &mut out_buf);
    assert!(res.is_ok());
    let len = res.unwrap();
    assert_eq!(len, 40);

    // Frame Control: 0x0010
    assert_eq!(out_buf[0], 0x10);
    assert_eq!(out_buf[1], 0x00);
    // Destination STA MAC
    assert_eq!(&out_buf[4..10], &sta_mac);
    // Status Code 0 (Success)
    assert_eq!(out_buf[26], 0);
    assert_eq!(out_buf[27], 0);
}

#[test]
fn test_parse_assoc_req() {
    let mut frame = [0u8; 32];
    frame[0] = 0x00; // Assoc Req FC
    frame[1] = 0x00;
    frame[10..16].copy_from_slice(&[0x11, 0x22, 0x33, 0x44, 0x55, 0x66]);
    frame[24] = 0x01; // Capability
    frame[25] = 0x00;
    frame[26] = 10; // Listen Interval
    frame[27] = 0;

    let res = parse_assoc_req(&frame);
    assert!(res.is_ok());
    let (sta_mac, cap, listen) = res.unwrap();
    assert_eq!(sta_mac, [0x11, 0x22, 0x33, 0x44, 0x55, 0x66]);
    assert_eq!(cap, 0x0001);
    assert_eq!(listen, 10);
}

#[test]
fn beacon_full_layout_and_length() {
    let bssid = [1, 2, 3, 4, 5, 6];
    let mut out = [0xEEu8; 64];
    let n = build_beacon(b"ab", &bssid, 11, &mut out).unwrap();
    assert_eq!(n, 53);
    let expected: Vec<u8> = [
        &[0x80, 0, 0, 0][..],
        &[0xFF; 6],
        &bssid,
        &bssid,
        &[0, 0],
        &[0; 8],
        &[0x64, 0, 1, 0],
        &[0, 2, b'a', b'b'],
        &[1, 8, 0x82, 0x84, 0x8b, 0x96, 0x24, 0x30, 0x48, 0x6c],
        &[3, 1, 11],
    ]
    .concat();
    assert_eq!(&out[..53], &expected[..]);
    // the tail of the buffer is untouched
    assert_eq!(&out[53..], &[0xEE; 11]);
}

#[test]
fn beacon_no_space_leaves_buffer() {
    let mut out = [0x11u8; 52];
    assert_eq!(build_beacon(b"ab", &[0; 6], 1, &mut out), Err(-28));
    assert_eq!(out, [0x11u8; 52]);
}

#[test]
fn beacon_roundtrip_through_parser() {
    let bssid = [0x02, 0x11, 0x22, 0x33, 0x44, 0x55];
    let mut out = [0u8; 128];
    let n = build_beacon(b"roundtrip", &bssid, 9, &mut out).unwrap();
    let info = parse_beacon(&out[..n]).unwrap();
    assert_eq!(info.bssid, bssid);
    assert_eq!(info.ssid_len, 9);
    assert_eq!(&info.ssid[..9], b"roundtrip");
    assert_eq!(&info.ssid[9..], &[0u8; 23]);
    assert_eq!(info.channel, 9);
    assert_eq!(info.capability, 1);
    assert_eq!(info.rssi, 0);
}

#[test]
fn beacon_roundtrip_long_ssid_truncated() {
    let ssid = [b'x'; 40];
    let mut out = [0u8; 128];
    let n = build_beacon(&ssid, &[9; 6], 3, &mut out).unwrap();
    let info = parse_beacon(&out[..n]).unwrap();
    assert_eq!(info.ssid_len, 32);
    assert_eq!(info.ssid, [b'x'; 32]);
    assert_eq!(info.channel, 3);
}

#[test]
fn assoc_resp_aid_and_status_fields() {
    let mut out = [0u8; 40];
    let n = build_assoc_resp(&[1; 6], &[2; 6], 0x4005, 0x1234, &mut out).unwrap();
    assert_eq!(n, 40);
    assert_eq!(&out[24..26], &[0x01, 0x00]);
    assert_eq!(&out[26..28], &[0x34, 0x12]);
    // AID bits 13:0 kept, bits 15:14 set
    assert_eq!(&out[28..30], &[0x05, 0xC0]);
    assert_eq!(&out[30..40], &[1, 8, 0x82, 0x84, 0x8b, 0x96, 0x24, 0x30, 0x48, 0x6c]);
    let mut small = [0u8; 39];
    assert_eq!(build_assoc_resp(&[1; 6], &[2; 6], 1, 0, &mut small), Err(-28));
    assert_eq!(small, [0u8; 39]);
}

#[test]
fn parse_assoc_req_rejects() {
    // too short
    assert_eq!(parse_assoc_req(&[0u8; 27]), Err(-22));
    // association response frame control
    let mut frame = [0u8; 28];
    frame[0] = 0x10;
    assert_eq!(parse_assoc_req(&frame), Err(-22));
    // reassociation request accepted
    frame[0] = 0x20;
    assert!(parse_assoc_req(&frame).is_ok());
}
