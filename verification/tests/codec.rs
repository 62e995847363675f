//! The UDS wire forms, pinned byte by byte.

use doipdiag::uds::UdsMessage;

#[test]
fn read_did_wire_form() {
    let m = UdsMessage::ReadDIDReq { did: 0xf190 };
    assert_eq!(m.encode(), vec![0x22, 0xf1, 0x90]);
    assert_eq!(m.sid(), 0x22);
}

#[test]
fn write_did_wire_form() {
    let m = UdsMessage::WriteDIDReq { did: 0xf190, user_data: vec![0x56, 0x46, 0x31, 0x52] };
    assert_eq!(m.encode(), vec![0x2e, 0xf1, 0x90, 0x56, 0x46, 0x31, 0x52]);
    assert_eq!(m.sid(), 0x2e);
}

#[test]
fn read_dtc_wire_form() {
    let m = UdsMessage::ReadDTCReq { sub: 0x0a };
    assert_eq!(m.encode(), vec![0x19, 0x0a]);
    assert_eq!(m.sid(), 0x19);
}

#[test]
fn request_download_wire_form() {
    let m = UdsMessage::RequestDownloadReq {
        compression_method: 1,
        encryption_method: 2,
        memory_address_bytes: 4,
        memory_size_bytes: 4,
        memory_address: 19,
        memory_size: 4,
    };
    assert_eq!(
        m.encode(),
        vec![0x34, 0x12, 0x44, 0x00, 0x00, 0x00, 0x13, 0x00, 0x00, 0x00, 0x04]
    );
    assert_eq!(m.sid(), 0x34);
}

#[test]
fn transfer_data_wire_form() {
    let m = UdsMessage::TransferDataReq {
        block_sequence_counter: 1,
        data: vec![0xde, 0xad, 0xba, 0xbe],
    };
    assert_eq!(m.encode(), vec![0x36, 0x01, 0xde, 0xad, 0xba, 0xbe]);
    assert_eq!(m.sid(), 0x36);
}

#[test]
fn transfer_exit_wire_form() {
    let m = UdsMessage::TransferExitReq { user_data: vec![] };
    assert_eq!(m.encode(), vec![0x37]);
    assert_eq!(m.sid(), 0x37);
}

#[test]
fn raw_message_is_its_bytes() {
    let m = UdsMessage::RawUds { data: vec![0x10, 0x03] };
    assert_eq!(m.encode(), vec![0x10, 0x03]);
    assert_eq!(m.sid(), 0x10);
    let empty = UdsMessage::RawUds { data: vec![] };
    assert_eq!(empty.encode(), Vec::<u8>::new());
    assert_eq!(empty.sid(), 0x00);
}

#[test]
fn negative_response_wire_form() {
    let m = UdsMessage::Nrc { sid: 0x22, nrc: 0x10 };
    assert_eq!(m.encode(), vec![0x7f, 0x22, 0x10]);
    assert_eq!(m.sid(), 0x7f);
}

#[test]
fn decode_negative_response() {
    match doipdiag::uds::decode(&vec![0x7f, 0x22, 0x10]) {
        Some(UdsMessage::Nrc { sid, nrc }) => {
            assert_eq!(sid, 0x22);
            assert_eq!(nrc, 0x10);
        }
        _ => panic!("a well-formed negative response did not decode"),
    }
    // a 0x7f-led string of the wrong length is malformed
    assert!(doipdiag::uds::decode(&vec![0x7f, 0x22]).is_none());
    assert!(doipdiag::uds::decode(&vec![0x7f, 0x22, 0x10, 0x00]).is_none());
}

#[test]
fn decode_request_download_response() {
    match doipdiag::uds::decode(&vec![0x74, 0x20, 0x0f, 0xfa]) {
        Some(UdsMessage::RequestDownloadRsp { max_block_size }) => {
            assert_eq!(max_block_size, 0x0ffa);
        }
        _ => panic!("a well-formed download response did not decode"),
    }
    // length-format nibble and length must agree
    assert!(doipdiag::uds::decode(&vec![0x74, 0x20, 0x0f]).is_none());
    assert!(doipdiag::uds::decode(&vec![0x74]).is_none());
    // a block size beyond the machine's word is refused
    let mut oversized = vec![0x74u8, 0x90];
    oversized.extend(vec![0xffu8; 9]);
    assert!(doipdiag::uds::decode(&oversized).is_none());
}

#[test]
fn decode_keeps_other_replies_raw() {
    match doipdiag::uds::decode(&vec![0x62, 0xf1, 0x90, 0x56]) {
        Some(UdsMessage::RawUds { data }) => assert_eq!(data, vec![0x62, 0xf1, 0x90, 0x56]),
        _ => panic!("an ordinary reply did not stay raw"),
    }
    match doipdiag::uds::decode(&vec![]) {
        Some(UdsMessage::RawUds { data }) => assert_eq!(data, Vec::<u8>::new()),
        _ => panic!("an empty reply did not stay raw"),
    }
}

#[test]
fn response_pending_is_recognised() {
    assert!(doipdiag::uds::response_pending(&vec![0x7f, 0x22, 0x78]));
    assert!(!doipdiag::uds::response_pending(&vec![0x7f, 0x22, 0x10]));
    assert!(!doipdiag::uds::response_pending(&vec![0x62, 0x22, 0x78]));
}

#[test]
fn duplicate_keeps_the_value() {
    let m = UdsMessage::TransferDataReq { block_sequence_counter: 7, data: vec![1, 2, 3] };
    let d = m.duplicate();
    assert_eq!(d.encode(), m.encode());
}
