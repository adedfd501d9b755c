//! Tests of the wire grammar: command printing, strict reply parsing, and
//! the register-map values.

use hackeeg::ads1299::{Gain, Speed};
use hackeeg::commands::{json_cmd, json_cmd_line, text_cmd_line, CommandVerb, TextWord};
use hackeeg::wire::{parse_payload_line, parse_status_line, trim_eol};

#[test]
fn test_json_cmd_line_wreg_format() {
    let line = json_cmd_line(CommandVerb::Wreg, &vec![7u8, 2]);
    assert_eq!(line, b"{\"COMMAND\":\"wreg\",\"PARAMETERS\":[7,2]}\r\n".to_vec());
}

#[test]
fn test_json_cmd_line_no_params_format() {
    let line = json_cmd_line(CommandVerb::Nop, &Vec::new());
    assert_eq!(line, b"{\"COMMAND\":\"nop\",\"PARAMETERS\":[]}\r\n".to_vec());
}

#[test]
fn test_json_cmd_decimal_params() {
    let line = json_cmd(CommandVerb::Wreg, &vec![0u8, 255, 10]);
    assert_eq!(line, b"{\"COMMAND\":\"wreg\",\"PARAMETERS\":[0,255,10]}".to_vec());
}

#[test]
fn test_json_cmd_is_valid_json() {
    let line = json_cmd(CommandVerb::Wreg, &vec![5u8, 129]);
    let v: serde_json::Value = serde_json::from_slice(&line).unwrap();
    assert_eq!(v["COMMAND"], serde_json::Value::String("wreg".to_string()));
    assert_eq!(v["PARAMETERS"][0], serde_json::Value::from(5u64));
    assert_eq!(v["PARAMETERS"][1], serde_json::Value::from(129u64));
}

#[test]
fn test_text_cmd_lines() {
    assert_eq!(text_cmd_line(TextWord::Jsonlines), b"jsonlines\n".to_vec());
    assert_eq!(text_cmd_line(TextWord::Messagepack), b"messagepack\n".to_vec());
}

#[test]
fn test_parse_status_success_reply() {
    let line = b"{\"STATUS_CODE\":200,\"STATUS_TEXT\":\"Ok\"}".to_vec();
    let st = parse_status_line(&line).unwrap();
    assert_eq!(st.status_code, 200);
    assert_eq!(st.status_text, b"Ok".to_vec());
    assert!(st.ok());
    assert!(st.assert_ok().is_ok());
}

#[test]
fn test_parse_status_failure_reply_surfaces_code() {
    // a 500 reply becomes a status error value, never a panic
    let line = b"{\"STATUS_CODE\":500,\"STATUS_TEXT\":\"Fail\"}".to_vec();
    let st = parse_status_line(&line).unwrap();
    assert_eq!(st.status_code, 500);
    assert!(!st.ok());
    let err = st.assert_ok().unwrap_err();
    assert_eq!(err.status_code, 500);
    assert_eq!(err.status_text, b"Fail".to_vec());
}

#[test]
fn test_parse_status_rejects_malformed() {
    let cases: Vec<&[u8]> = vec![
        b"",
        b"WAT",
        b"{\"STATUS_CODE\":,\"STATUS_TEXT\":\"Ok\"}",
        b"{\"STATUS_CODE\":007,\"STATUS_TEXT\":\"Ok\"}", // leading zero
        b"{\"STATUS_CODE\":99999999999,\"STATUS_TEXT\":\"Ok\"}", // past u32
        b"{\"STATUS_CODE\":200,\"STATUS_TEXT\":\"Ok\"} ", // trailing junk
        b"{\"STATUS_CODE\":200,\"STATUS_TEXT\":\"Ok}", // unterminated text
        b"{\"status_code\":200,\"status_text\":\"Ok\"}", // wrong key case
        b"{\"C\":200,\"D\":\"AAAA\"}", // payload shape, not status shape
    ];
    for c in cases {
        assert!(parse_status_line(&c.to_vec()).is_none(), "accepted {:?}", c);
    }
}

#[test]
fn test_parse_status_zero_code() {
    let line = b"{\"STATUS_CODE\":0,\"STATUS_TEXT\":\"\"}".to_vec();
    let st = parse_status_line(&line).unwrap();
    assert_eq!(st.status_code, 0);
    assert_eq!(st.status_text, Vec::<u8>::new());
}

#[test]
fn test_parse_status_max_code() {
    let line = b"{\"STATUS_CODE\":4294967295,\"STATUS_TEXT\":\"x\"}".to_vec();
    let st = parse_status_line(&line).unwrap();
    assert_eq!(st.status_code, u32::MAX);
}

#[test]
fn test_parse_payload_reply() {
    let line = b"{\"C\":200,\"D\":\"AQID\"}".to_vec();
    let pl = parse_payload_line(&line).unwrap();
    assert_eq!(pl.code, 200);
    assert_eq!(pl.data, b"AQID".to_vec());
}

#[test]
fn test_trim_eol_removes_line_endings() {
    let mut line = b"{\"C\":200}\r\n".to_vec();
    trim_eol(&mut line);
    assert_eq!(line, b"{\"C\":200}".to_vec());
    let mut bare = b"abc".to_vec();
    trim_eol(&mut bare);
    assert_eq!(bare, b"abc".to_vec());
    let mut only = b"\r\n\n".to_vec();
    trim_eol(&mut only);
    assert_eq!(only, Vec::<u8>::new());
}

#[test]
fn test_speed_settings() {
    assert_eq!(Speed::from_sps(16000).value(), 0x00);
    assert_eq!(Speed::from_sps(500).value(), 0x05);
    assert_eq!(Speed::from_sps(250).value(), 0x06);
}

#[test]
fn test_gain_settings() {
    assert_eq!(Gain::from_numeric(1).bits(), 0b000);
    assert_eq!(Gain::from_numeric(4).bits(), 0b010);
    assert_eq!(Gain::from_numeric(24).bits(), 0b110);
}
