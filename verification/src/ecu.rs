//! The reference ECU responder the scenario tests run against.
//!
//! A tiny diagnostic provider with a fixed response table: two readable
//! data identifiers, a supported-DTC report, and a download session that
//! grants a maximum block size of `0x0ffa` and accepts every block.  Any
//! other read is refused with negative response code `0x10`, anything else
//! with `0x11`.

use vstd::prelude::*;

verus! {

/// The reply the reference ECU gives to one UDS request.
pub open spec fn spec_ecu_reply(req: Seq<u8>) -> Seq<u8> {
    if req.len() >= 3 && req[0] == 0x22 && req[1] == 0xf0 && req[2] == 0x12 {
        seq![
            0x62u8,
            0xf0u8,
            0x12u8,
            0x32u8,
            0x36u8,
            0x34u8,
            0x31u8,
            0x33u8,
            0x30u8,
            0x30u8,
            0x35u8,
            0x30u8,
            0x30u8,
            0x52u8,
            0x31u8,
        ]
    } else if req.len() >= 3 && req[0] == 0x22 && req[1] == 0xf1 && req[2] == 0x90 {
        seq![
            0x62u8,
            0xf1u8,
            0x90u8,
            0x56u8,
            0x46u8,
            0x31u8,
            0x58u8,
            0x52u8,
            0x32u8,
            0x31u8,
            0x30u8,
            0x46u8,
            0x53u8,
            0x54u8,
            0x47u8,
            0x42u8,
            0x45u8,
            0x4eu8,
            0x30u8,
            0x34u8,
        ]
    } else if req.len() >= 1 && req[0] == 0x22 {
        seq![0x7fu8, 0x22u8, 0x10u8]
    } else if req.len() >= 2 && req[0] == 0x19 && req[1] == 0x0a {
        seq![0x59u8, 0x0au8, 0xffu8, 0xeau8, 0x19u8, 0x88u8, 0x00u8, 0xfdu8, 0x01u8, 0x50u8]
    } else if req.len() >= 1 && req[0] == 0x34 {
        seq![0x74u8, 0x20u8, 0x0fu8, 0xfau8]
    } else if req.len() >= 1 && req[0] == 0x36 {
        seq![0x76u8, 0x01u8]
    } else if req.len() >= 1 && req[0] == 0x37 {
        seq![0x77u8]
    } else if req.len() >= 1 {
        seq![0x7fu8, req[0], 0x11u8]
    } else {
        seq![0x7fu8, 0x00u8, 0x11u8]
    }
}

/// The reference ECU's answer to one request, by the fixed table.
pub fn ecu_reply(req: &Vec<u8>) -> (r: Vec<u8>)
    ensures
        r@ == spec_ecu_reply(req@),
{
    if req.len() >= 3 && req[0] == 0x22 && req[1] == 0xf0 && req[2] == 0x12 {
        let r = vec![
            0x62u8, 0xf0, 0x12, 0x32, 0x36, 0x34, 0x31, 0x33, 0x30, 0x30, 0x35, 0x30, 0x30, 0x52,
            0x31,
        ];
        assert(r@ =~= spec_ecu_reply(req@));
        r
    } else if req.len() >= 3 && req[0] == 0x22 && req[1] == 0xf1 && req[2] == 0x90 {
        let r = vec![
            0x62u8, 0xf1, 0x90, 0x56, 0x46, 0x31, 0x58, 0x52, 0x32, 0x31, 0x30, 0x46, 0x53, 0x54,
            0x47, 0x42, 0x45, 0x4e, 0x30, 0x34,
        ];
        assert(r@ =~= spec_ecu_reply(req@));
        r
    } else if req.len() >= 1 && req[0] == 0x22 {
        let r = vec![0x7fu8, 0x22, 0x10];
        assert(r@ =~= spec_ecu_reply(req@));
        r
    } else if req.len() >= 2 && req[0] == 0x19 && req[1] == 0x0a {
        let r = vec![0x59u8, 0x0a, 0xff, 0xea, 0x19, 0x88, 0x00, 0xfd, 0x01, 0x50];
        assert(r@ =~= spec_ecu_reply(req@));
        r
    } else if req.len() >= 1 && req[0] == 0x34 {
        let r = vec![0x74u8, 0x20, 0x0f, 0xfa];
        assert(r@ =~= spec_ecu_reply(req@));
        r
    } else if req.len() >= 1 && req[0] == 0x36 {
        let r = vec![0x76u8, 0x01];
        assert(r@ =~= spec_ecu_reply(req@));
        r
    } else if req.len() >= 1 && req[0] == 0x37 {
        let r = vec![0x77u8];
        assert(r@ =~= spec_ecu_reply(req@));
        r
    } else if req.len() >= 1 {
        let r = vec![0x7fu8, req[0], 0x11];
        assert(r@ =~= spec_ecu_reply(req@));
        r
    } else {
        let r = vec![0x7fu8, 0x00, 0x11];
        assert(r@ =~= spec_ecu_reply(req@));
        r
    }
}

} // verus!
