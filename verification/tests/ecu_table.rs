//! The reference ECU's response table, entry by entry.

use doipdiag::ecu::ecu_reply;

fn bytes(s: &str) -> Vec<u8> {
    s.split_ascii_whitespace()
        .map(|t| u8::from_str_radix(t, 16).unwrap())
        .collect()
}

#[test]
fn read_did_f012() {
    assert_eq!(
        ecu_reply(&bytes("22 f0 12")),
        bytes("62 f0 12 32 36 34 31 33 30 30 35 30 30 52 31")
    );
}

#[test]
fn read_did_f190() {
    assert_eq!(
        ecu_reply(&bytes("22 f1 90")),
        bytes("62 f1 90 56 46 31 58 52 32 31 30 46 53 54 47 42 45 4e 30 34")
    );
}

#[test]
fn read_other_did_is_refused() {
    assert_eq!(ecu_reply(&bytes("22 ff ff")), bytes("7f 22 10"));
    assert_eq!(ecu_reply(&bytes("22 00 01")), bytes("7f 22 10"));
}

#[test]
fn supported_dtc_report() {
    assert_eq!(
        ecu_reply(&bytes("19 0a")),
        bytes("59 0a ff ea 19 88 00 fd 01 50")
    );
}

#[test]
fn request_download_grants_a_block_size() {
    assert_eq!(
        ecu_reply(&bytes("34 12 44 00 00 00 13 00 00 00 04")),
        bytes("74 20 0f fa")
    );
}

#[test]
fn transfer_data_is_accepted() {
    assert_eq!(ecu_reply(&bytes("36 01 de ad ba be")), bytes("76 01"));
}

#[test]
fn transfer_exit_is_accepted() {
    assert_eq!(ecu_reply(&bytes("37")), bytes("77"));
}

#[test]
fn anything_else_is_refused_with_11() {
    assert_eq!(ecu_reply(&bytes("10 03")), bytes("7f 10 11"));
    assert_eq!(ecu_reply(&bytes("3e")), bytes("7f 3e 11"));
}
