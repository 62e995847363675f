//! The inline byte syntax and the sixteen-bit address syntax.

use doipdiag::hexstr::{
    format_uds_command, parse_hex_u8, parse_hex_u8_multiple, parse_u16, parse_uds_command,
    parse_uds_commands,
};

#[test]
fn hex_bytes_parse() {
    assert_eq!(parse_hex_u8("00"), Some(0x00));
    assert_eq!(parse_hex_u8("ff"), Some(0xff));
    assert_eq!(parse_hex_u8("FF"), Some(0xff));
    assert_eq!(parse_hex_u8("7"), Some(0x07));
    assert_eq!(parse_hex_u8("0022"), Some(0x22));
    assert_eq!(parse_hex_u8("100"), None);
    assert_eq!(parse_hex_u8(""), None);
    assert_eq!(parse_hex_u8("g1"), None);
}

#[test]
fn atoms_parse_with_a_count() {
    assert_eq!(parse_hex_u8_multiple("22"), Some((0x22, 1)));
    assert_eq!(parse_hex_u8_multiple("ff*12"), Some((0xff, 12)));
    assert_eq!(parse_hex_u8_multiple("ff*0"), Some((0xff, 0)));
    assert_eq!(parse_hex_u8_multiple("ff*"), None);
    assert_eq!(parse_hex_u8_multiple("*3"), None);
    assert_eq!(parse_hex_u8_multiple("ff*2*3"), None);
    assert_eq!(parse_hex_u8_multiple("zz*3"), None);
}

#[test]
fn commands_parse() {
    assert_eq!(parse_uds_command("22 f1 90"), Some(vec![0x22, 0xf1, 0x90]));
    assert_eq!(
        parse_uds_command("22 ff ff*3"),
        Some(vec![0x22, 0xff, 0xff, 0xff, 0xff])
    );
    assert_eq!(parse_uds_command("10 03"), Some(vec![0x10, 0x03]));
    assert_eq!(parse_uds_command(""), None);
    assert_eq!(parse_uds_command("22  f1"), None);
    assert_eq!(parse_uds_command("22 f1 "), None);
    assert_eq!(parse_uds_command("xyz"), None);
}

#[test]
fn repeated_byte_expands() {
    // `B1 B2*N` gives B1 and then N copies of B2
    let mut expected = vec![0x22u8];
    expected.extend(std::iter::repeat(0xabu8).take(7));
    assert_eq!(parse_uds_command("22 ab*7"), Some(expected));
}

#[test]
fn command_lists_parse_together() {
    let r = parse_uds_commands(vec!["10 03", "22 f1 90"]);
    assert_eq!(r, Some(vec![vec![0x10, 0x03], vec![0x22, 0xf1, 0x90]]));
    assert_eq!(parse_uds_commands(vec!["10 03", "nope"]), None);
    assert_eq!(parse_uds_commands(vec![]), Some(vec![]));
}

#[test]
fn formatting_inverts_parsing() {
    let bytes = vec![0x22u8, 0xf1, 0x90, 0x00, 0xff];
    let text = format_uds_command(&bytes);
    assert_eq!(text, "22 f1 90 00 ff");
    assert_eq!(parse_uds_command(&text), Some(bytes));
    // the empty byte string renders as the empty string, which the parser
    // refuses; the loader maps that to no bytes
    assert_eq!(format_uds_command(&vec![]), "");
    assert_eq!(parse_uds_command(""), None);
}

#[test]
fn every_byte_survives_the_round_trip() {
    for b in 0u16..=255 {
        let bytes = vec![b as u8];
        let text = format_uds_command(&bytes);
        assert_eq!(parse_uds_command(&text), Some(bytes));
    }
    let all: Vec<u8> = (0u16..=255).map(|b| b as u8).collect();
    let text = format_uds_command(&all);
    assert_eq!(parse_uds_command(&text), Some(all));
}

#[test]
fn addresses_parse_three_ways() {
    assert_eq!(parse_u16("1234"), Some(1234));
    assert_eq!(parse_u16("e080"), Some(0xe080));
    assert_eq!(parse_u16("0xe080"), Some(0xe080));
    assert_eq!(parse_u16("0x00ed"), Some(0x00ed));
    assert_eq!(parse_u16("65535"), Some(0xffff));
    // neither a decimal nor a hex sixteen-bit number: the first two
    // characters are stripped and the rest reads as hex
    assert_eq!(parse_u16("65536"), Some(0x536));
    assert_eq!(parse_u16(""), None);
    assert_eq!(parse_u16("g"), None);
    assert_eq!(parse_u16("0xzz"), None);
}
