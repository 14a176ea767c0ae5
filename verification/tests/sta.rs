use mt7603u_logic::ffi::RegWriteOp;
use mt7603u_logic::sta::{
    build_probe_request, build_wtbl_sta_sequence, parse_beacon, wtbl_dw3_dw4, wtbl_entry234,
};

#[test]
fn test_build_probe_request() {
    let ssid = b"WiFi-Test";
    let src_mac = [0x00, 0x0C, 0x43, 0x76, 0x03, 0x01];
    let mut out_buf = [0u8; 128];

    let res = build_probe_request(ssid, &src_mac, &mut out_buf);
    assert!(res.is_ok());
    let len = res.unwrap();
    assert!(len >= 36);

    // Assert Frame Control (0x0040)
    assert_eq!(out_buf[0], 0x40);
    assert_eq!(out_buf[1], 0x00);
    // Assert Destination Broadcast
    assert_eq!(&out_buf[4..10], &[0xFF; 6]);
    // Assert Source MAC
    assert_eq!(&out_buf[10..16], &src_mac);
    // Assert SSID IE
    assert_eq!(out_buf[24], 0); // Element ID
    assert_eq!(out_buf[25], 9); // SSID Length
    assert_eq!(&out_buf[26..35], b"WiFi-Test");
}

#[test]
fn test_parse_beacon_frame() {
    let mut frame = [0u8; 64];
    // Address 3 (BSSID) at offset 16
    frame[16..22].copy_from_slice(&[0x12, 0x34, 0x56, 0x78, 0x9A, 0xBC]);
    // Capability at offset 34
    frame[34] = 0x01;
    frame[35] = 0x00;

    // IE 0: SSID "Home-AP"
    frame[36] = 0; // IE ID SSID
    frame[37] = 7; // Len 7
    frame[38..45].copy_from_slice(b"Home-AP");

    // IE 3: Channel 6
    frame[45] = 3; // IE ID Channel
    frame[46] = 1;
    frame[47] = 6;

    let res = parse_beacon(&frame);
    assert!(res.is_ok());
    let info = res.unwrap();
    assert_eq!(info.bssid, [0x12, 0x34, 0x56, 0x78, 0x9A, 0xBC]);
    assert_eq!(&info.ssid[..7], b"Home-AP");
    assert_eq!(info.ssid_len, 7);
    assert_eq!(info.channel, 6);
}

#[test]
fn test_wtbl_entry234_crosslinks() {
    // Lock in vendor mt_wtbl_get_entry234 / mt_wtbl_init derived FID/EID.
    // WCID 0
    assert_eq!(wtbl_entry234(0), (0, 0, 64, 0, 128, 0));
    assert_eq!(wtbl_dw3_dw4(0), (0x0080_0000, 0x0000_0040));
    // WCID 1
    assert_eq!(wtbl_entry234(1), (0, 1, 64, 2, 128, 1));
    assert_eq!(wtbl_dw3_dw4(1), (0x0080_0800, 0x0002_1040));
    // Spot-check a higher WCID to confirm page arithmetic.
    assert_eq!(wtbl_entry234(2), (1, 0, 65, 0, 128, 2));
    assert_eq!(wtbl_dw3_dw4(2), (0x0080_0001, 0x0004_0041));
    assert_eq!(wtbl_entry234(3), (1, 1, 65, 2, 128, 3));
}

#[test]
fn test_build_wtbl_sta_sequence() {
    let bssid = [0xFC, 0x34, 0x97, 0x19, 0x0E, 0x01];
    let mut ops = [RegWriteOp::default(); 16];

    let res = build_wtbl_sta_sequence(&bssid, &mut ops);
    assert!(res.is_ok());
    let written = res.unwrap();
    assert_eq!(written, 12);

    // Entry 0 Broadcast (0x28000) — cross-links via wtbl_dw3_dw4(0)
    assert_eq!(ops[0].addr, 0x0002_8000);
    assert_eq!(
        ops[0].val,
        (1 << 29) | (1 << 28) | (1 << 22) | (0x0E << 16) | 0xFFFF
    );
    assert_eq!(ops[1].addr, 0x0002_8004);
    assert_eq!(ops[1].val, 0xFFFF_FFFF);
    assert_eq!(ops[2].addr, 0x0002_8008);
    assert_eq!(ops[2].val, 0x0000_0000);
    assert_eq!(ops[3].addr, 0x0002_800C);
    assert_eq!(ops[3].val, 0x0080_0000); // wtbl_dw3_dw4(0).0
    assert_eq!(ops[4].addr, 0x0002_8010);
    assert_eq!(ops[4].val, 0x0000_0040); // wtbl_dw3_dw4(0).1

    // Entry 1 AP BSSID (0x28014) — cross-links via wtbl_dw3_dw4(1)
    assert_eq!(ops[5].addr, 0x0002_8014);
    assert_eq!(ops[5].val, (1 << 29) | (1 << 28) | (0x01 << 8) | 0x0E);
    assert_eq!(ops[6].addr, 0x0002_8018);
    assert_eq!(ops[6].val, 0x1997_34FC);
    assert_eq!(ops[7].addr, 0x0002_801C);
    assert_eq!(ops[7].val, 0x1830_0000); // qos|ht|baf_en|dyn_bw
    assert_eq!(ops[8].addr, 0x0002_8020);
    assert_eq!(ops[8].val, 0x0080_0800); // wtbl_dw3_dw4(1).0
    assert_eq!(ops[9].addr, 0x0002_8024);
    assert_eq!(ops[9].val, 0x0002_1040); // wtbl_dw3_dw4(1).1

    // Flush WTBL1OR (0x2A300)
    assert_eq!(ops[10].addr, 0x0002_A300);
    assert_eq!(ops[10].val, 0x8000_0000);
    assert_eq!(ops[11].addr, 0x0002_A300);
    assert_eq!(ops[11].val, 0x0000_0000);
}

#[test]
fn probe_request_exact_bytes() {
    let mut out = [0x77u8; 40];
    let n = build_probe_request(b"ab", &[1, 2, 3, 4, 5, 6], &mut out).unwrap();
    assert_eq!(n, 38);
    let expected: Vec<u8> = [
        &[0x40, 0, 0, 0][..],
        &[0xFF; 6],
        &[1, 2, 3, 4, 5, 6],
        &[0xFF; 6],
        &[0, 0],
        &[0, 2, b'a', b'b'],
        &[1, 8, 0x82, 0x84, 0x8b, 0x96, 0x24, 0x30, 0x48, 0x6c],
    ]
    .concat();
    assert_eq!(&out[..38], &expected[..]);
    assert_eq!(&out[38..], &[0x77, 0x77]);
    // wildcard SSID
    let mut out = [0u8; 36];
    assert_eq!(build_probe_request(b"", &[0; 6], &mut out), Ok(36));
    assert_eq!(&out[24..26], &[0, 0]);
    let mut small = [0u8; 35];
    assert_eq!(build_probe_request(b"", &[0; 6], &mut small), Err(-28));
}

#[test]
fn parse_beacon_walk_rules() {
    let mut frame = [0u8; 36 + 12];
    // SSID "ab", second SSID "zz" ignored, DS channel 11, then an empty element stops the walk
    frame[36..40].copy_from_slice(&[0, 2, b'a', b'b']);
    frame[40..44].copy_from_slice(&[0, 2, b'z', b'z']);
    frame[44..47].copy_from_slice(&[3, 1, 11]);
    frame[47] = 0;
    let info = parse_beacon(&frame).unwrap();
    assert_eq!(info.ssid_len, 2);
    assert_eq!(&info.ssid[..2], b"ab");
    assert_eq!(info.channel, 11);
    // an element running past the end is ignored
    let mut f2 = [0u8; 40];
    f2[36..40].copy_from_slice(&[3, 5, 6, 6]);
    assert_eq!(parse_beacon(&f2).unwrap().channel, 0);
    // too short
    assert_eq!(parse_beacon(&[0u8; 35]), Err(-22));
    // exactly the fixed part
    assert!(parse_beacon(&[0u8; 36]).is_ok());
}

#[test]
fn wtbl_sequence_no_space() {
    let mut ops = [RegWriteOp::default(); 11];
    assert_eq!(build_wtbl_sta_sequence(&[0; 6], &mut ops), Err(-28));
    assert_eq!(ops, [RegWriteOp::default(); 11]);
}

#[test]
fn wtbl_entry234_distinct_slots() {
    for a in 0u32..64 {
        for b in 0u32..64 {
            let (fa, ea, ..) = wtbl_entry234(a);
            let (fb, eb, ..) = wtbl_entry234(b);
            assert_eq!((fa, ea) == (fb, eb), a == b);
        }
    }
    assert_eq!(wtbl_entry234(7), (3, 1, 67, 2, 129, 3));
}
