use mt7603u_logic::rx::parse_rx_frame;

#[test]
fn test_parse_valid_rx_frame() {
    let mut buf = [0u8; 128];
    buf[0] = 128; // rx_byte_cnt = 128
    buf[1] = 0;
    buf[3] = (0x02 << 5) | (0x07 << 1); // pkt_type = RX_NORMAL(0x02), grp_vld = 7
    buf[5] = 6; // Ch 6
    buf[64] = 0x80; // Beacon frame FC at offset 64

    let res = parse_rx_frame(&buf, 0);
    assert!(res.is_ok());
    let info = res.unwrap();
    assert_eq!(info.hdr_len, 64);
    assert_eq!(info.pkt_len, 64);
    assert_eq!(info.channel, 6);
    assert_eq!(info.is_beacon, 1);
    assert_eq!(info.is_crc_error, 0);
}

#[test]
fn test_parse_truncated_rx_frame() {
    let buf = [0u8; 8];
    let res = parse_rx_frame(&buf, 0);
    assert_eq!(res, Err(-22));
}

#[test]
fn test_parse_rx_rssi() {
    // grp_vld = 0b0111 (G1+G2+G3): header = 16+16+8+24 = 64, Group3 offset = 40
    let mut buf = [0u8; 128];
    buf[0] = 128; // rx_byte_cnt = 128
    buf[3] = (0x02 << 5) | (0x07 << 1); // pkt_type = RX_NORMAL, grp_vld = 7
    buf[5] = 6; // Ch 6
    buf[52] = 0x9A; // IBRssi0 at Group3+12 = 52 -> -102
    buf[64] = 0x80; // Beacon FC at offset 64

    let info = parse_rx_frame(&buf, 0).unwrap();
    assert_eq!(info.rssi, -102);
    let info = parse_rx_frame(&buf, 2).unwrap();
    assert_eq!(info.rssi, -100);
}

#[test]
fn test_parse_rx_rssi_unknown() {
    // grp_vld = 0b0011 (G1+G2 only, no Group3): rssi must be 0 (unknown)
    let mut buf = [0u8; 128];
    buf[0] = 128;
    buf[3] = (0x02 << 5) | (0x03 << 1);
    buf[5] = 6;
    buf[40] = 0x80; // Beacon FC at header end 40
    let info = parse_rx_frame(&buf, 0).unwrap();
    assert_eq!(info.rssi, 0);

    // Group3 present but IBRssi0 == 0: rssi must be 0 (unknown)
    let mut buf2 = [0u8; 128];
    buf2[0] = 128;
    buf2[3] = (0x02 << 5) | (0x07 << 1);
    buf2[5] = 6;
    buf2[52] = 0x00; // IBRssi0 = 0
    buf2[64] = 0x80;
    let info = parse_rx_frame(&buf2, 0).unwrap();
    assert_eq!(info.rssi, 0);
}

#[test]
fn test_parse_rx_eapol_data_frame() {
    // grp_vld = 7 -> Header is 16 + 16 (G1) + 8 (G2) + 24 (G3) = 64 bytes
    let mut buf = [0u8; 128];
    buf[0] = 128; // rx_byte_cnt = 128
    buf[1] = 0;
    buf[3] = (0x02 << 5) | (0x07 << 1); // pkt_type = RX_NORMAL(0x02), grp_vld = 7
    buf[5] = 6; // Ch 6
    buf[64] = 0x08; // Data frame FC (Type = 2, Subtype = 0) at offset 64
    buf[65] = 0x00;

    let res = parse_rx_frame(&buf, 0);
    assert!(res.is_ok());
    let info = res.unwrap();
    assert_eq!(info.hdr_len, 64);
    assert_eq!(info.pkt_len, 64);
    assert_eq!(info.channel, 6);
    assert_eq!(info.is_beacon, 0);
    assert_eq!(info.is_data, 1);
    assert_eq!(info.is_crc_error, 0);
}

#[test]
fn rx_non_frame_packet_reports_nothing() {
    let mut buf = [0u8; 32];
    buf[3] = (0x07 << 5) | (0x07 << 1); // event packet
    buf[5] = 6;
    let info = parse_rx_frame(&buf, 0).unwrap();
    assert_eq!(info, mt7603u_logic::ffi::RxInfo::default());
}

#[test]
fn rx_short_descriptor_and_flags() {
    // group 3 + header offset: header = 16 + 24 + 2 = 42; buffer 41 is too short
    let mut buf = [0u8; 41];
    buf[3] = (0x03 << 5) | (0x04 << 1);
    buf[6] = 0x40;
    assert_eq!(parse_rx_frame(&buf, 0), Err(-22));

    let mut buf = [0u8; 60];
    buf[0] = 50; // byte count within the buffer
    buf[3] = (0x02 << 5) | (0x04 << 1);
    buf[6] = 0x40;
    buf[10] = 0x02; // FCS error
    buf[4] = 0x10; // multicast beacon flag
    buf[16 + 12] = 0x80; // IBRssi0 = -128
    let info = parse_rx_frame(&buf, -5).unwrap();
    assert_eq!(info.hdr_len, 42);
    assert_eq!(info.pkt_len, 8);
    assert_eq!(info.is_crc_error, 1);
    assert_eq!(info.is_beacon, 1);
    assert_eq!(info.is_data, 0);
    // saturates at -128
    assert_eq!(info.rssi, -128);
    // duplicate-RFB packets are decoded but carry no RSSI
    buf[3] = (0x03 << 5) | (0x04 << 1);
    let info = parse_rx_frame(&buf, -5).unwrap();
    assert_eq!(info.rssi, 0);
    assert_eq!(info.hdr_len, 42);
    assert_eq!(info.is_beacon, 1);
}

#[test]
fn rx_rssi_saturates_high_and_zero_count() {
    let mut buf = [0u8; 64];
    buf[3] = (0x02 << 5) | (0x04 << 1);
    buf[28] = 0x7E; // 126
    let info = parse_rx_frame(&buf, 10).unwrap();
    assert_eq!(info.rssi, 127);
    // byte count 0: the buffer length is used
    assert_eq!(info.pkt_len, 64 - 40);
    // frame too short to classify (1 byte)
    let mut b2 = [0u8; 41];
    b2[3] = (0x02 << 5) | (0x04 << 1);
    b2[40] = 0x08;
    let info = parse_rx_frame(&b2, 0).unwrap();
    assert_eq!(info.pkt_len, 1);
    assert_eq!(info.is_data, 0);
}
