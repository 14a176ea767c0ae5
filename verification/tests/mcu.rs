use mt7603u_logic::mcu::{
    build_addr_len_req, build_ch_privilege_cmd, build_channel_switch_cmd,
    build_efuse_buffer_mode_cmd, build_fw_scatter_frame, build_fw_start_req, build_fw_txd_frame,
    build_radio_on_off_cmd, build_restart_dl_req, build_tx_power_ctrl_cmd, fw_dl_len,
    verify_firmware, CMD_CH_PRIVILEGE, CMD_NA, CMD_QUERY, CMD_SET, EXT_CID, EXT_CID_OPTION_NEED_ACK,
    EXT_CID_OPTION_NO_NEED_ACK, EXT_CMD_CHANNEL_SWITCH, EXT_CMD_EFUSE_BUFFER_MODE, EXT_CMD_NA,
    EXT_CMD_RADIO_ON_OFF_CTRL, EXT_CMD_SET_TX_POWER_CTRL, FW_CODE_START_ADDRESS1,
    FW_SCATTER_MAX_PAYLOAD, FW_SCATTER_PQ_ID, FW_TXD_FULL_SIZE, FW_TXD_HDR_SIZE, MT_FW_SCATTER,
    MT_FW_START_REQ, MT_RESTART_DL_REQ, MT_TARGET_ADDRESS_LEN_REQ, MT_UPLOAD_FW_UNIT, P1_Q0,
    PKT_ID_CMD, TARGET_ADDR_LEN_NEED_RSP, USB_END_PADDING,
};

#[test]
fn test_build_radio_on_off_cmd() {
    let mut out = [0u8; 64];
    let res = build_radio_on_off_cmd(true, 1, &mut out);
    assert!(res.is_ok());
    let len = res.unwrap();
    assert_eq!(len, 36); // 32 Header + 4 Payload

    assert_eq!(out[4], EXT_CID);
    assert_eq!(out[6], CMD_SET);
    assert_eq!(out[7], 1); // seq
    assert_eq!(out[9], EXT_CMD_RADIO_ON_OFF_CTRL);
    assert_eq!(out[11], EXT_CID_OPTION_NEED_ACK);
    // reserved 20B block zeroed in 32B header mode
    assert_eq!(&out[12..32], &[0u8; 20]);
    assert_eq!(out[32], 1); // ON
    assert_eq!(out[33..36], [0, 0, 0]);
}

#[test]
fn test_build_fw_txd_frame() {
    let payload = [0xAAu8; 12];
    let mut out = [0u8; 64];
    let res = build_fw_txd_frame(
        MT_TARGET_ADDRESS_LEN_REQ,
        P1_Q0,
        CMD_NA,
        EXT_CMD_NA,
        1,
        true,
        FW_TXD_HDR_SIZE,
        &payload,
        &mut out,
    );
    assert!(res.is_ok());
    let len = res.unwrap();
    assert_eq!(len, 24);
    // length field (LE16)
    assert_eq!(out[0], 24);
    assert_eq!(out[1], 0);
    // pq_id (LE16)
    assert_eq!(out[2], 0x00);
    assert_eq!(out[3], 0x80);
    // cid / pkt_type / set_query / seq
    assert_eq!(out[4], MT_TARGET_ADDRESS_LEN_REQ);
    assert_eq!(out[5], PKT_ID_CMD);
    assert_eq!(out[6], CMD_NA);
    assert_eq!(out[7], 1);
    // ext_cid, reserved, ext_cid_option
    assert_eq!(out[9], EXT_CMD_NA);
    assert_eq!(out[11], EXT_CID_OPTION_NO_NEED_ACK); // non-EXT command
    assert_eq!(&out[12..24], &payload);
}

#[test]
fn test_build_fw_txd_frame_runtime_32b_header() {
    // FW_RUN_TIME commands use the full 32-byte FW_TXD header.
    let payload = [0xBBu8; 36];
    let mut out = [0u8; 128];
    let res = build_fw_txd_frame(
        EXT_CID,
        P1_Q0,
        CMD_SET,
        EXT_CMD_CHANNEL_SWITCH,
        1,
        true,
        FW_TXD_FULL_SIZE,
        &payload,
        &mut out,
    );
    assert!(res.is_ok());
    let len = res.unwrap();
    assert_eq!(len, 68); // 32 Header + 36 Payload
                         // length field (LE16)
    assert_eq!(out[0], 68);
    assert_eq!(out[1], 0);
    // reserved 20B block zeroed
    assert_eq!(&out[12..32], &[0u8; 20]);
    // payload lands at offset 32
    assert_eq!(&out[32..68], &payload);
}

#[test]
fn test_build_fw_txd_frame_ext_need_ack() {
    // EXT_CID with CMD_SET + need_rsp => NEED_ACK
    let mut out = [0u8; 32];
    let res = build_fw_txd_frame(
        EXT_CID,
        P1_Q0,
        CMD_SET,
        0x12,
        3,
        true,
        FW_TXD_HDR_SIZE,
        &[],
        &mut out,
    );
    assert!(res.is_ok());
    assert_eq!(out[11], EXT_CID_OPTION_NEED_ACK);
    assert_eq!(out[9], 0x12);
}

#[test]
fn test_build_fw_txd_frame_overflow() {
    let payload = [0xAAu8; 64];
    let mut out = [0u8; 32];
    let res = build_fw_txd_frame(
        MT_TARGET_ADDRESS_LEN_REQ,
        P1_Q0,
        CMD_NA,
        EXT_CMD_NA,
        1,
        true,
        FW_TXD_HDR_SIZE,
        &payload,
        &mut out,
    );
    assert_eq!(res, Err(-28));
}

#[test]
fn test_build_fw_txd_frame_overflow_32b() {
    // 32B header mode must also respect max_out_len (header + payload).
    let payload = [0xAAu8; 4];
    let mut out = [0u8; 34];
    let res = build_fw_txd_frame(
        EXT_CID,
        P1_Q0,
        CMD_SET,
        EXT_CMD_RADIO_ON_OFF_CTRL,
        1,
        true,
        FW_TXD_FULL_SIZE,
        &payload,
        &mut out,
    );
    assert_eq!(res, Err(-28)); // needs 36, only 34 available
}

#[test]
fn test_build_addr_len_req() {
    let mut out = [0u8; 64];
    let res = build_addr_len_req(FW_CODE_START_ADDRESS1, 4, 1, &mut out);
    assert!(res.is_ok());
    let len = res.unwrap();
    assert_eq!(len, 24);
    assert_eq!(out[4], MT_TARGET_ADDRESS_LEN_REQ);
    assert_eq!(out[7], 1); // first need_wait command seq
    assert_eq!(&out[12..16], &0x100000u32.to_le_bytes());
    assert_eq!(&out[16..20], &4u32.to_le_bytes());
    assert_eq!(&out[20..24], &TARGET_ADDR_LEN_NEED_RSP.to_le_bytes());
}

#[test]
fn test_build_fw_start_req() {
    let mut out = [0u8; 64];
    let res = build_fw_start_req(1, FW_CODE_START_ADDRESS1, 2, &mut out);
    assert!(res.is_ok());
    let len = res.unwrap();
    assert_eq!(len, 20);
    assert_eq!(out[4], MT_FW_START_REQ);
    assert_eq!(out[7], 2); // second need_wait command seq
    assert_eq!(&out[12..16], &1u32.to_le_bytes());
    assert_eq!(&out[16..20], &0x100000u32.to_le_bytes());
}

#[test]
fn test_build_restart_dl_req() {
    let mut out = [0u8; 64];
    let res = build_restart_dl_req(1, &mut out);
    assert!(res.is_ok());
    let len = res.unwrap();
    assert_eq!(len, 32); // 32-byte full runtime header, no payload
    assert_eq!(out[4], MT_RESTART_DL_REQ);
    assert_eq!(out[5], PKT_ID_CMD);
    assert_eq!(out[6], CMD_NA);
    assert_eq!(out[7], 1);
    assert_eq!(out[9], EXT_CMD_NA);
    assert_eq!(out[11], EXT_CID_OPTION_NO_NEED_ACK); // non-EXT command
}

#[test]
fn test_build_fw_scatter_frame() {
    let chunk = [0x46u8, 0x00, 0x01, 0x00];
    let mut out = [0u8; 64];
    let res = build_fw_scatter_frame(&chunk, &mut out);
    assert!(res.is_ok());
    let len = res.unwrap();
    assert_eq!(len, 16);
    assert_eq!(out[4], MT_FW_SCATTER);
    assert_eq!(out[2], 0x00);
    assert_eq!(out[3], 0xC0);
    assert_eq!(out[7], 0);
    assert_eq!(&out[12..16], &chunk);
}

#[test]
fn test_fw_scatter_payload_cap() {
    let chunk = [0x00u8; FW_SCATTER_MAX_PAYLOAD + 1];
    let mut out = [0u8; FW_SCATTER_MAX_PAYLOAD + FW_TXD_HDR_SIZE + 8];
    let res = build_fw_scatter_frame(&chunk, &mut out);
    assert_eq!(res, Err(-22));
}

#[test]
fn test_fw_dl_len() {
    let mut fw = [0u8; 8];
    fw[4] = 0x20; // little-endian 0x20 = 32
    let dl = fw_dl_len(&fw).unwrap();
    assert_eq!(dl, 36); // 32 + 4 CRC
    assert_eq!(fw_dl_len(&[]), None);
    assert_eq!(fw_dl_len(&[0u8; 2]), None);
}

#[test]
fn test_verify_corrupted_firmware() {
    let bad_bytes = [0x00u8; 64];
    let res = verify_firmware(&bad_bytes);
    assert_eq!(res, Err(-22));
}

#[test]
fn test_build_channel_switch_cmd() {
    let mut out = [0u8; 128];
    let res = build_channel_switch_cmd(6, 6, 0, 2, 2, 1, &mut out);
    assert!(res.is_ok());
    let len = res.unwrap();
    assert_eq!(len, 68); // 32 Header + 36 Payload

    assert_eq!(out[4], EXT_CID);
    assert_eq!(out[6], CMD_SET);
    assert_eq!(out[7], 1); // seq
    assert_eq!(out[9], EXT_CMD_CHANNEL_SWITCH);
    assert_eq!(out[11], EXT_CID_OPTION_NEED_ACK);
    // reserved 20B block zeroed in 32B header mode
    assert_eq!(&out[12..32], &[0u8; 20]);
    assert_eq!(out[32], 6); // ctrl_ch
    assert_eq!(out[33], 6); // central_ch
    assert_eq!(out[34], 0); // bw
    assert_eq!(out[35], 2); // tx_streams
    assert_eq!(out[36], 2); // rx_streams
}

#[test]
fn test_build_ch_privilege_cmd() {
    let mut out = [0u8; 64];
    let res = build_ch_privilege_cmd(6, 0, &mut out);
    assert!(res.is_ok());
    let len = res.unwrap();
    assert_eq!(len, 48); // 32 Header + 16 Payload

    assert_eq!(out[4], CMD_CH_PRIVILEGE);
    assert_eq!(out[6], CMD_SET);
    // reserved 20B block zeroed in 32B header mode
    assert_eq!(&out[12..32], &[0u8; 20]);
    assert_eq!(out[35], 6); // ucPrimaryChannel (payload offset 3)
}

#[test]
fn test_build_efuse_buffer_mode_cmd() {
    // eeprom image: 1024 bytes of 0xff with a marker at the MAC-adjacent
    // calibration field 0x034 and at 0x056 (TX power group).
    let mut eeprom = [0xffu8; 1024];
    eeprom[0x034] = 0x12;
    eeprom[0x035] = 0x34;
    eeprom[0x056] = 0xab;

    let mut out = [0u8; 2048];
    let res = build_efuse_buffer_mode_cmd(&eeprom, 3, &mut out);
    assert!(res.is_ok());
    let len = res.unwrap();
    // 32 header + sizeof(EXT_CMD_EFUSE_BUFFER_MODE_T) =
    // 32 + (4 hdr + 240*4 content) = 996
    assert_eq!(len, 996);

    // FW_TXD framing
    assert_eq!(out[4], EXT_CID);
    assert_eq!(out[6], CMD_SET);
    assert_eq!(out[7], 3); // seq
    assert_eq!(out[9], EXT_CMD_EFUSE_BUFFER_MODE);
    assert_eq!(out[11], EXT_CID_OPTION_NEED_ACK);
    // reserved 20B block zeroed in 32B header mode
    assert_eq!(&out[12..32], &[0u8; 20]);

    // Payload header: eFuse source mode.
    assert_eq!(out[32], 0); // ucSourceMode = EEPROM_MODE_EFUSE
    assert_eq!(out[33], 0); // ucCount = 0 (firmware reads on-chip eFuse)
    assert_eq!(out[34], 0); // reserved
    assert_eq!(out[35], 0); // reserved

    // The EEPROM payload is NOT pushed in eFuse mode: all 240 buffer
    // entries stay zeroed.
    for i in 0..240usize {
        let base = 32 + 4 + i * 4;
        assert_eq!(out[base..base + 4], [0u8, 0, 0, 0], "entry {i}");
    }
}

#[test]
fn test_build_tx_power_ctrl_cmd() {
    // eeprom image with marker values at the TX power field offsets.
    let mut eeprom = [0xffu8; 1024];
    eeprom[0x36] = 0x78; // NIC_CONFIGURE_1 lo -> ucTempCompEnable
    eeprom[0x37] = 0x01; // NIC_CONFIGURE_1 hi -> ucTSSIEnable
    eeprom[0x58] = 0x10; // TX0_G_BAND_TARGET_PWR lo
    eeprom[0x59] = 0x20; // TX0_G_BAND_TARGET_PWR hi -> CHPwrDelta[0]
    eeprom[0x5e] = 0x30; // TX1_G_BAND_TARGET_PWR lo
    eeprom[0x5f] = 0x40; // TX1_G_BAND_TARGET_PWR hi -> CHPwrDelta[3]
    eeprom[0x5a] = 0x50; // TX0 CHL_PWR_DELTA_MID lo -> CHPwrDelta[1]
    eeprom[0x5b] = 0x60; // TX0 CHL_PWR_DELTA_MID hi -> CHPwrDelta[2]
    eeprom[0x60] = 0x70; // TX1 CHL_PWR_DELTA_MID lo -> CHPwrDelta[4]
    eeprom[0x61] = 0x80; // TX1 CHL_PWR_DELTA_MID hi -> CHPwrDelta[5]
    eeprom[0x50] = 0x55; // G_BAND_20_40_BW_PWR_DELTA lo
    eeprom[0xa0] = 0x01; // TX_PWR_CCK_1_2M lo
    eeprom[0xa1] = 0x02; // TX_PWR_CCK_1_2M hi
    eeprom[0xc6] = 0xaa; // STEP_NUM_NEG_7 lo

    let mut out = [0u8; 128];
    let res = build_tx_power_ctrl_cmd(&eeprom, 6, 4, &mut out);
    assert!(res.is_ok());
    let len = res.unwrap();
    assert_eq!(len, 32 + 44); // 32 header + 44 payload

    // Framing
    assert_eq!(out[4], EXT_CID);
    assert_eq!(out[6], CMD_SET);
    assert_eq!(out[7], 4); // seq
    assert_eq!(out[9], EXT_CMD_SET_TX_POWER_CTRL);
    // reserved 20B block zeroed in 32B header mode
    assert_eq!(&out[12..32], &[0u8; 20]);

    // Payload
    assert_eq!(out[32], 6); // ucCenterChannel
    assert_eq!(out[33], 0x01); // ucTSSIEnable = NIC_CONFIGURE_1 >> 8
    assert_eq!(out[34], 0x78); // ucTempCompEnable = NIC_CONFIGURE_1 & 0xff
    assert_eq!(out[35], 0x10); // aucTargetPower[0]
    assert_eq!(out[36], 0x30); // aucTargetPower[1]

    // aucRatePowerDelta[0..1] from TX_PWR_CCK_1_2M LE word
    assert_eq!(out[37], 0x01);
    assert_eq!(out[38], 0x02);
    // remaining rate deltas use 0xff fallback (unset EEPROM bytes)
    assert_eq!(out[39], 0xff);

    assert_eq!(out[51], 0x55); // ucBWPowerDelta

    assert_eq!(out[52], 0x20); // CHPwrDelta[0]
    assert_eq!(out[53], 0x50); // CHPwrDelta[1]
    assert_eq!(out[54], 0x60); // CHPwrDelta[2]
    assert_eq!(out[55], 0x40); // CHPwrDelta[3]
    assert_eq!(out[56], 0x70); // CHPwrDelta[4]
    assert_eq!(out[57], 0x80); // CHPwrDelta[5]

    assert_eq!(out[58], 0xaa); // TempCompPower[0]
    assert_eq!(out[59], 0xff); // TempCompPower[1] hi byte fallback
    assert_eq!(out[75], 0); // ucReserved
}


#[test]
fn fw_txd_need_ack_rules() {
    // QUERY also asks for an ACK; no ACK without need_rsp or for non-EXT commands
    let mut out = [0u8; 12];
    build_fw_txd_frame(EXT_CID, P1_Q0, CMD_QUERY, 1, 1, true, FW_TXD_HDR_SIZE, &[], &mut out).unwrap();
    assert_eq!(out[11], EXT_CID_OPTION_NEED_ACK);
    build_fw_txd_frame(EXT_CID, P1_Q0, CMD_SET, 1, 1, false, FW_TXD_HDR_SIZE, &[], &mut out).unwrap();
    assert_eq!(out[11], EXT_CID_OPTION_NO_NEED_ACK);
    build_fw_txd_frame(EXT_CID, P1_Q0, CMD_NA, 1, 1, true, FW_TXD_HDR_SIZE, &[], &mut out).unwrap();
    assert_eq!(out[11], EXT_CID_OPTION_NO_NEED_ACK);
    // the ACK rule does not look at the sequence number
    build_fw_txd_frame(EXT_CID, P1_Q0, CMD_SET, 1, 0, true, FW_TXD_HDR_SIZE, &[], &mut out).unwrap();
    assert_eq!(out[11], EXT_CID_OPTION_NEED_ACK);
}

#[test]
fn fw_txd_frame_exact_bytes_and_untouched_tail() {
    let mut out = [0x5Au8; 20];
    let n = build_fw_txd_frame(0x33, 0x1234, CMD_SET, 0x44, 9, false, FW_TXD_HDR_SIZE, &[7, 8], &mut out).unwrap();
    assert_eq!(n, 14);
    assert_eq!(&out[..14], &[14, 0, 0x34, 0x12, 0x33, 0xA0, CMD_SET, 9, 0, 0x44, 0, 0, 7, 8]);
    assert_eq!(&out[14..], &[0x5A; 6]);
    // no space: untouched
    let mut small = [0x5Au8; 13];
    assert_eq!(build_fw_txd_frame(0x33, 0x1234, CMD_SET, 0x44, 9, false, FW_TXD_HDR_SIZE, &[7, 8], &mut small), Err(-28));
    assert_eq!(small, [0x5A; 13]);
}

#[test]
fn fw_txd_length_field_matches_frame_length() {
    let payload = [0u8; 300];
    let mut out = [0u8; 400];
    let n = build_fw_txd_frame(EXT_CID, P1_Q0, CMD_SET, 1, 1, true, FW_TXD_FULL_SIZE, &payload, &mut out).unwrap();
    assert_eq!(n, 332);
    assert_eq!(u16::from_le_bytes([out[0], out[1]]) as usize, n);
}

#[test]
fn scatter_frame_fits_upload_unit() {
    let chunk = [0xC3u8; FW_SCATTER_MAX_PAYLOAD];
    let mut out = [0u8; MT_UPLOAD_FW_UNIT];
    let n = build_fw_scatter_frame(&chunk, &mut out).unwrap();
    assert_eq!(n, FW_SCATTER_MAX_PAYLOAD + FW_TXD_HDR_SIZE);
    assert!(n + USB_END_PADDING <= MT_UPLOAD_FW_UNIT);
    assert_eq!(u16::from_le_bytes([out[2], out[3]]), FW_SCATTER_PQ_ID);
    assert_eq!(out[11], EXT_CID_OPTION_NO_NEED_ACK);
    // oversize chunk refused before the space check, buffer untouched
    let big = [0u8; FW_SCATTER_MAX_PAYLOAD + 1];
    let mut tiny = [9u8; 4];
    assert_eq!(build_fw_scatter_frame(&big, &mut tiny), Err(-22));
    assert_eq!(tiny, [9u8; 4]);
    // fitting chunk but no space
    assert_eq!(build_fw_scatter_frame(&[1, 2], &mut tiny), Err(-28));
}

#[test]
fn fw_dl_len_reads_tail_word() {
    let fw = [0xAA, 0xBB, 0x78, 0x56, 0x34, 0x12];
    assert_eq!(fw_dl_len(&fw), Some(0x1234_567C));
    assert_eq!(fw_dl_len(&[1, 0, 0]), None);
    assert_eq!(fw_dl_len(&[0, 0, 0, 0]), Some(4));
}

#[test]
fn verify_firmware_accepts_signature() {
    let mut fw = [0u8; 1024];
    fw[..4].copy_from_slice(&[0x46, 0x00, 0x01, 0x00]);
    assert_eq!(verify_firmware(&fw), Ok(()));
    assert_eq!(verify_firmware(&fw[..1023]), Err(-22));
    fw[2] = 0x02;
    assert_eq!(verify_firmware(&fw), Err(-22));
}

#[test]
fn radio_off_and_channel_switch_payload() {
    let mut out = [0u8; 36];
    assert_eq!(build_radio_on_off_cmd(false, 5, &mut out), Ok(36));
    assert_eq!(&out[32..36], &[2, 0, 0, 0]);
    let mut out = [0u8; 68];
    build_channel_switch_cmd(1, 3, 1, 1, 2, 2, &mut out).unwrap();
    assert_eq!(&out[37..44], &[0u8; 7]);
    assert_eq!(&out[44..65], &[0xFFu8; 21]);
    assert_eq!(&out[65..68], &[0u8; 3]);
    let mut small = [0u8; 67];
    assert_eq!(build_channel_switch_cmd(1, 3, 1, 1, 2, 2, &mut small), Err(-28));
}

#[test]
fn restart_and_privilege_no_space() {
    let mut out = [0u8; 31];
    assert_eq!(build_restart_dl_req(1, &mut out), Err(-28));
    assert_eq!(out, [0u8; 31]);
    let mut out = [0u8; 47];
    assert_eq!(build_ch_privilege_cmd(1, 0, &mut out), Err(-28));
    let mut out = [0u8; 48];
    build_ch_privilege_cmd(11, 0, &mut out).unwrap();
    assert_eq!(out[11], EXT_CID_OPTION_NO_NEED_ACK);
    let mut expected = [0u8; 16];
    expected[3] = 11;
    assert_eq!(&out[32..48], &expected);
}

#[test]
fn tx_power_ctrl_short_eeprom_falls_back_to_ff() {
    let mut out = [0u8; 76];
    build_tx_power_ctrl_cmd(&[0x11, 0x22], 1, 1, &mut out).unwrap();
    assert_eq!(out[32], 1);
    assert!(out[33..75].iter().all(|&b| b == 0xff));
    assert_eq!(out[75], 0);
}
