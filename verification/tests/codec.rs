//! FT1.2 frame codec and cEMI accessors on concrete bytes.

use knx_blinds::cemi::{cEMIMsg, create_group_write_cemi, MessageCode};
use knx_blinds::frame::{Ft12Frame, KDriveErr};

#[test]
fn frame_serializes_with_header_checksum_and_end() {
    // the first initialization request as captured on the wire
    let f = Ft12Frame::new(0x73, vec![0xa7]);
    assert_eq!(f.to_bytes(), vec![0x68, 0x02, 0x02, 0x68, 0x73, 0xa7, 0x1a, 0x16]);
}

#[test]
fn frame_checksum_is_sum_mod_256() {
    assert_eq!(Ft12Frame::calculate_checksum(0x73, &[0xa7]), 0x1a);
    assert_eq!(Ft12Frame::calculate_checksum(0x00, &[]), 0x00);
    assert_eq!(Ft12Frame::calculate_checksum(0xff, &[0xff, 0x02]), 0x00);
}

#[test]
fn frame_round_trip_one_byte() {
    let bytes = Ft12Frame::new(0x73, vec![0xa7]).to_bytes();
    let parsed = Ft12Frame::from_bytes(&bytes).unwrap();
    assert_eq!(parsed.control, 0x73);
    assert_eq!(parsed.data, vec![0xa7]);
}

#[test]
fn frame_round_trip_empty_data() {
    let bytes = Ft12Frame::new(0x53, Vec::new()).to_bytes();
    assert_eq!(bytes.len(), 7);
    let parsed = Ft12Frame::from_bytes(&bytes).unwrap();
    assert_eq!(parsed.control, 0x53);
    assert!(parsed.data.is_empty());
}

#[test]
fn frame_round_trip_largest_data() {
    let data: Vec<u8> = (0..254u32).map(|i| (i % 251) as u8).collect();
    let bytes = Ft12Frame::new(0xf3, data.clone()).to_bytes();
    assert_eq!(bytes[1], 255);
    let parsed = Ft12Frame::from_bytes(&bytes).unwrap();
    assert_eq!(parsed.control, 0xf3);
    assert_eq!(parsed.data, data);
}

#[test]
fn frame_too_short_is_invalid_length() {
    assert_eq!(
        Ft12Frame::from_bytes(&[0x68, 1, 1]).unwrap_err(),
        KDriveErr::InvalidFrameLength
    );
}

#[test]
fn frame_bad_start_byte() {
    assert_eq!(
        Ft12Frame::from_bytes(&[0x69, 1, 1, 0x68, 0x73, 0x73, 0x16]).unwrap_err(),
        KDriveErr::InvalidFrameStart
    );
    assert_eq!(
        Ft12Frame::from_bytes(&[0x68, 1, 1, 0x69, 0x73, 0x73, 0x16]).unwrap_err(),
        KDriveErr::InvalidFrameStart
    );
}

#[test]
fn frame_disagreeing_lengths() {
    assert_eq!(
        Ft12Frame::from_bytes(&[0x68, 1, 2, 0x68, 0x73, 0x73, 0x16]).unwrap_err(),
        KDriveErr::LengthMismatch
    );
}

#[test]
fn frame_wrong_total_length() {
    assert_eq!(
        Ft12Frame::from_bytes(&[0x68, 2, 2, 0x68, 0x73, 0xa7, 0x16]).unwrap_err(),
        KDriveErr::FrameLengthMismatch
    );
}

#[test]
fn frame_bad_end_byte() {
    assert_eq!(
        Ft12Frame::from_bytes(&[0x68, 1, 1, 0x68, 0x73, 0x73, 0x17]).unwrap_err(),
        KDriveErr::InvalidFrameEnd
    );
}

#[test]
fn frame_bit_flip_in_data_is_checksum_mismatch() {
    let mut bytes = Ft12Frame::new(0x73, vec![0xa7, 0x33]).to_bytes();
    bytes[5] ^= 0x04; // corrupt one data byte
    assert_eq!(
        Ft12Frame::from_bytes(&bytes).unwrap_err(),
        KDriveErr::ChecksumMismatch
    );
}

#[test]
fn cemi_group_write_recognition() {
    // message code, add-info len, two control fields, source, destination,
    // NPDU length, TPCI/APCI with the value folded into the low bits
    let bytes = [0x29, 0x00, 0xbc, 0xe0, 0x11, 0x22, 0x10, 0xaa, 0x01, 0x00, 0x81];
    let msg = cEMIMsg::from_bytes(&bytes);
    assert_eq!(msg.get_msg_code(), 0x29);
    assert!(msg.is_group_write());
    assert_eq!(msg.get_dest().unwrap(), 0x10aa);
    assert_eq!(msg.get_group_data().unwrap(), vec![0x01]);
}

#[test]
fn cemi_non_group_write_is_rejected() {
    // APCI action code 0 instead of 2
    let bytes = [0x29, 0x00, 0xbc, 0xe0, 0x11, 0x22, 0x10, 0xaa, 0x01, 0x00, 0x01];
    let msg = cEMIMsg::from_bytes(&bytes);
    assert!(!msg.is_group_write());
}

#[test]
fn cemi_build_one_byte_group_write() {
    let cemi = create_group_write_cemi(0x10aa, &[0x01]).unwrap();
    assert_eq!(
        cemi,
        vec![0x11, 0x00, 0xbc, 0xe0, 0x00, 0x00, 0x10, 0xaa, 0x01, 0x00, 0x81]
    );
    let msg = cEMIMsg::from_bytes(&cemi);
    assert!(msg.is_group_write());
    assert_eq!(msg.get_dest().unwrap(), 0x10aa);
    assert_eq!(msg.get_group_data().unwrap(), vec![0x01]);
}

#[test]
fn cemi_build_multi_byte_group_write_round_trips() {
    let cemi = create_group_write_cemi(0x10ab, &[0x01, 0x02, 0x03]).unwrap();
    assert_eq!(
        cemi,
        vec![0x11, 0x00, 0xbc, 0xe0, 0x00, 0x00, 0x10, 0xab, 0x04, 0x00, 0x80, 0x01, 0x02, 0x03]
    );
    let msg = cEMIMsg::from_bytes(&cemi);
    assert!(msg.is_group_write());
    assert_eq!(msg.get_group_data().unwrap(), vec![0x01, 0x02, 0x03]);
}

#[test]
fn cemi_too_short_for_destination() {
    let bytes = [0x29, 0x00, 0xbc, 0xe0, 0x11, 0x22, 0x10];
    let msg = cEMIMsg::from_bytes(&bytes);
    assert_eq!(
        msg.get_dest().unwrap_err(),
        KDriveErr::CemiFrameTooShortForDestination
    );
}

#[test]
fn cemi_too_short_for_data_length() {
    let bytes = [0x29, 0x00, 0xbc, 0xe0, 0x11, 0x22, 0x10, 0xaa];
    let msg = cEMIMsg::from_bytes(&bytes);
    assert_eq!(
        msg.get_group_data().unwrap_err(),
        KDriveErr::CemiFrameTooShortForDataLength
    );
}

#[test]
fn cemi_truncated_data() {
    let bytes = [0x29, 0x00, 0xbc, 0xe0, 0x11, 0x22, 0x10, 0xaa, 0x05];
    let msg = cEMIMsg::from_bytes(&bytes);
    assert_eq!(
        msg.get_group_data().unwrap_err(),
        KDriveErr::CemiFrameTruncated
    );
}

#[test]
fn cemi_oversized_data() {
    let mut bytes = vec![0x29, 0x00, 0xbc, 0xe0, 0x11, 0x22, 0x10, 0xaa, 15, 0x00];
    bytes.extend(std::iter::repeat(0u8).take(15));
    let msg = cEMIMsg::from_bytes(&bytes);
    assert_eq!(
        msg.get_group_data().unwrap_err(),
        KDriveErr::CemiDataTooLarge
    );
}

#[test]
fn cemi_zero_length_data_is_empty() {
    let bytes = [0x29, 0x00, 0xbc, 0xe0, 0x11, 0x22, 0x10, 0xaa, 0x00];
    let msg = cEMIMsg::from_bytes(&bytes);
    assert_eq!(msg.get_group_data().unwrap(), Vec::<u8>::new());
}

#[test]
fn message_codes_classify() {
    assert_eq!(MessageCode::from_u8(0x11), MessageCode::LDataReq);
    assert_eq!(MessageCode::from_u8(0x2e), MessageCode::LDataCon);
    assert_eq!(MessageCode::from_u8(0x29), MessageCode::LDataInd);
    assert_eq!(MessageCode::from_u8(0x42), MessageCode::Other);
}

#[test]
fn error_messages_name_the_failure() {
    assert_eq!(KDriveErr::ChecksumMismatch.message(), "Checksum mismatch");
    assert_eq!(KDriveErr::ParityDesync.message(), "Frame count parity desync");
}
