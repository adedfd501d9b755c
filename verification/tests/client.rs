//! Tests of the device client over the in-memory transport: mode
//! negotiation, the stop/resume bracket around register writes, the no-op
//! probe, and sample reads in both streaming modes.

use hackeeg::ads1299::Gain;
use hackeeg::client::{HackEEGClient, Mode};
use hackeeg::responses::ClientError;
use hackeeg::sample::{encode_as_base64_json, Sample};
use hackeeg::transport::MemTransport;

fn ok_reply() -> Vec<u8> {
    b"{\"STATUS_CODE\":200,\"STATUS_TEXT\":\"Ok\"}\r\n".to_vec()
}

fn fail_reply() -> Vec<u8> {
    b"{\"STATUS_CODE\":500,\"STATUS_TEXT\":\"Fail\"}\r\n".to_vec()
}

/// A client freshly negotiated into JSON-lines mode, with `extra` further
/// scripted replies behind the four the negotiation consumes.
fn new_client(extra: Vec<Vec<u8>>) -> HackEEGClient<MemTransport> {
    let mut mem = MemTransport::new();
    // consumed by: stop, sdatac, the jsonlines echo, and the no-op probe
    for _ in 0..4 {
        mem.queue_reply(ok_reply());
    }
    for r in extra {
        mem.queue_reply(r);
    }
    HackEEGClient::new(mem).unwrap()
}

#[test]
fn test_new_negotiates_jsonlines() {
    let client = new_client(vec![]);
    assert_eq!(client.mode, Mode::JsonLines);
    assert!(!client.continuous_read);
    assert_eq!(client.transport.written_count(), 4);
    assert_eq!(client.transport.written_at(0), b"{\"COMMAND\":\"stop\",\"PARAMETERS\":[]}\r\n".to_vec());
    assert_eq!(client.transport.written_at(1), b"{\"COMMAND\":\"sdatac\",\"PARAMETERS\":[]}\r\n".to_vec());
    assert_eq!(client.transport.written_at(2), b"jsonlines\n".to_vec());
    assert_eq!(client.transport.written_at(3), b"{\"COMMAND\":\"nop\",\"PARAMETERS\":[]}\r\n".to_vec());
}

#[test]
fn test_new_fails_without_device() {
    let mem = MemTransport::new();
    match HackEEGClient::new(mem) {
        Err(ClientError::IOError(e)) => assert!(e.timed_out),
        Err(other) => panic!("expected a transport fault, got {:?}", other),
        Ok(_) => panic!("expected a transport fault, got a client"),
    }
}

#[test]
fn test_ensure_mode_is_idempotent() {
    // the first ensure of the current mode is already a no-op; nothing more
    // goes over the wire and the client reports "unchanged"
    let mut client = new_client(vec![]);
    let before = client.transport.written_count();
    assert_eq!(client.ensure_mode(Mode::JsonLines), Ok(false));
    assert_eq!(client.transport.written_count(), before);
    assert_eq!(client.mode, Mode::JsonLines);
    assert_eq!(client.ensure_mode(Mode::JsonLines), Ok(false));
    assert_eq!(client.transport.written_count(), before);
}

#[test]
fn test_enable_channel_brackets_when_streaming() {
    // rdatac, then enable channel 3 with gain x4 while streaming:
    // exactly one stop/resume bracket around the single register write
    let mut client = new_client(vec![
        ok_reply(), // rdatac
        ok_reply(), // the bracket's sdatac
        ok_reply(), // wreg
        ok_reply(), // the bracket's rdatac
    ]);
    client.rdatac().unwrap();
    assert!(client.continuous_read);
    client.enable_channel(3, Some(Gain::X4)).unwrap();
    assert!(client.continuous_read);
    assert_eq!(client.transport.written_count(), 8);
    assert_eq!(client.transport.written_at(4), b"{\"COMMAND\":\"rdatac\",\"PARAMETERS\":[]}\r\n".to_vec());
    assert_eq!(client.transport.written_at(5), b"{\"COMMAND\":\"sdatac\",\"PARAMETERS\":[]}\r\n".to_vec());
    // CHnSET base 4 + channel 3 = register 7; electrode input 0 | gain x4 bits 2
    assert_eq!(client.transport.written_at(6), b"{\"COMMAND\":\"wreg\",\"PARAMETERS\":[7,2]}\r\n".to_vec());
    assert_eq!(client.transport.written_at(7), b"{\"COMMAND\":\"rdatac\",\"PARAMETERS\":[]}\r\n".to_vec());
}

#[test]
fn test_enable_channel_plain_when_idle() {
    let mut client = new_client(vec![ok_reply()]);
    client.enable_channel(1, None).unwrap();
    assert!(!client.continuous_read);
    assert_eq!(client.transport.written_count(), 5);
    // CHnSET base 4 + channel 1 = register 5; electrode input with gain x1
    assert_eq!(client.transport.written_at(4), b"{\"COMMAND\":\"wreg\",\"PARAMETERS\":[5,0]}\r\n".to_vec());
}

#[test]
fn test_disable_channel_brackets_when_streaming() {
    // disabling while streaming takes the same single stop/resume bracket
    // as enabling, and the flag is set again afterwards
    let mut client = new_client(vec![
        ok_reply(), // rdatac
        ok_reply(), // the bracket's sdatac
        ok_reply(), // wreg
        ok_reply(), // the bracket's rdatac
    ]);
    client.rdatac().unwrap();
    client.disable_channel(5).unwrap();
    assert!(client.continuous_read);
    assert_eq!(client.transport.written_count(), 8);
    assert_eq!(client.transport.written_at(5), b"{\"COMMAND\":\"sdatac\",\"PARAMETERS\":[]}\r\n".to_vec());
    // CHnSET base 4 + channel 5 = register 9; power-down | shorted = 129
    assert_eq!(client.transport.written_at(6), b"{\"COMMAND\":\"wreg\",\"PARAMETERS\":[9,129]}\r\n".to_vec());
    assert_eq!(client.transport.written_at(7), b"{\"COMMAND\":\"rdatac\",\"PARAMETERS\":[]}\r\n".to_vec());
}

#[test]
fn test_disable_channel_plain_when_idle() {
    let mut client = new_client(vec![ok_reply()]);
    client.disable_channel(5).unwrap();
    assert!(!client.continuous_read);
    assert_eq!(client.transport.written_count(), 5);
    assert_eq!(client.transport.written_at(4), b"{\"COMMAND\":\"wreg\",\"PARAMETERS\":[9,129]}\r\n".to_vec());
}

#[test]
fn test_drain_to_eof_idle_stream() {
    let mut client = new_client(vec![]);
    let before = client.transport.written_count();
    assert_eq!(client.drain_to_eof(), Ok(0));
    assert_eq!(client.transport.written_count(), before);
}

#[test]
fn test_noop_false_on_unparseable_reply() {
    // a reply that is not a structured status makes the probe answer false,
    // not an error
    let mut client = new_client(vec![b"WAT\r\n".to_vec()]);
    assert_eq!(client.noop(), Ok(false));
}

#[test]
fn test_noop_true_on_status_reply() {
    let mut client = new_client(vec![ok_reply()]);
    assert_eq!(client.noop(), Ok(true));
    // even a failure status parses as a status, so the probe answers true
    let mut client2 = new_client(vec![fail_reply()]);
    assert_eq!(client2.noop(), Ok(true));
}

#[test]
fn test_noop_error_on_transport_fault() {
    let mut client = new_client(vec![]);
    match client.noop() {
        Err(ClientError::IOError(e)) => assert!(e.timed_out),
        other => panic!("expected a transport fault, got {:?}", other),
    }
}

#[test]
fn test_bad_status_is_surfaced() {
    let mut client = new_client(vec![fail_reply()]);
    match client.disable_channel(2) {
        Err(ClientError::BadStatus(s)) => {
            assert_eq!(s.status_code, 500);
            assert_eq!(s.status_text, b"Fail".to_vec());
        },
        other => panic!("expected a status error, got {:?}", other),
    }
}

#[test]
fn test_rdatac_sdatac_toggle_flag_on_success_only() {
    let mut client = new_client(vec![ok_reply(), fail_reply(), ok_reply()]);
    client.rdatac().unwrap();
    assert!(client.continuous_read);
    assert!(client.sdatac().is_err()); // 500 status: flag untouched
    assert!(client.continuous_read);
    client.sdatac().unwrap();
    assert!(!client.continuous_read);
}

fn frame() -> Vec<u8> {
    let mut f = vec![
        0x01, 0x02, 0x03, 0x04, 0x05, 0x06, 0x07, 0x08, 0xAA, 0xBB, 0xCC,
    ];
    f.extend_from_slice(&[
        0x7F, 0xFF, 0xFF, 0x80, 0x00, 0x00, 0x00, 0x00, 0x01, 0xFF, 0xFF, 0xFF, 0x12, 0x34, 0x56,
        0xED, 0xCB, 0xAA, 0x00, 0x80, 0x00, 0x55, 0xAA, 0x55, 0x99,
    ]);
    f
}

#[test]
fn test_read_sample_in_jsonlines_mode() {
    let raw = frame();
    let mut line = encode_as_base64_json(&raw);
    line.extend_from_slice(b"\r\n");
    let mut client = new_client(vec![line]);
    let s = client.read_rdatac_response().unwrap();
    assert_eq!(s, Sample::from_bytes(&raw).unwrap());
}

#[test]
fn test_read_sample_in_msgpack_mode() {
    let raw = frame();
    // ensure_mode(MsgPack) consumes one status reply, then the read takes
    // one 44-byte message: a 9-byte header plus the first 35 raw bytes
    let mut msg = vec![0u8; 9];
    msg.extend_from_slice(&raw[..35]);
    let mut client = new_client(vec![ok_reply(), msg]);
    assert_eq!(client.ensure_mode(Mode::MsgPack), Ok(true));
    assert_eq!(client.mode, Mode::MsgPack);
    assert_eq!(
        client.transport.written_at(4),
        b"{\"COMMAND\":\"messagepack\",\"PARAMETERS\":[]}\r\n".to_vec()
    );
    let s = client.read_rdatac_response().unwrap();
    assert_eq!(s, Sample::from_bytes(&raw).unwrap());
}

#[test]
fn test_read_sample_in_wrong_mode_is_usage_error() {
    let mut client = new_client(vec![]);
    client.mode = Mode::Text;
    assert_eq!(client.read_rdatac_response(), Err(ClientError::BadMode));
}

#[test]
fn test_ensure_mode_to_text_sends_toggle_line() {
    let mut client = new_client(vec![]);
    assert_eq!(client.ensure_mode(Mode::Text), Ok(true));
    assert_eq!(client.mode, Mode::Text);
    assert_eq!(client.transport.written_count(), 5);
    // the firmware's toggle out of structured mode is this exact line
    assert_eq!(client.transport.written_at(4), b"jsonlines\n".to_vec());
}

#[test]
fn test_ensure_mode_msgpack_back_to_jsonlines() {
    let mut client = new_client(vec![ok_reply()]);
    assert_eq!(client.ensure_mode(Mode::MsgPack), Ok(true));
    assert_eq!(client.ensure_mode(Mode::JsonLines), Ok(true));
    assert_eq!(client.mode, Mode::JsonLines);
    assert_eq!(client.transport.written_count(), 6);
    assert_eq!(client.transport.written_at(5), b"jsonlines\n".to_vec());
}

#[test]
fn test_stop_and_sdatac_messagepack_sequence() {
    let mut client = new_client(vec![ok_reply(), ok_reply(), ok_reply()]);
    client.stop_and_sdatac_messagepack().unwrap();
    assert!(!client.continuous_read);
    assert_eq!(client.transport.written_count(), 7);
    assert_eq!(client.transport.written_at(4), b"{\"COMMAND\":\"stop\",\"PARAMETERS\":[]}\r\n".to_vec());
    assert_eq!(client.transport.written_at(5), b"{\"COMMAND\":\"sdatac\",\"PARAMETERS\":[]}\r\n".to_vec());
    assert_eq!(client.transport.written_at(6), b"{\"COMMAND\":\"nop\",\"PARAMETERS\":[]}\r\n".to_vec());
}

#[test]
fn test_disable_all_channels_sequence() {
    let replies: Vec<Vec<u8>> = (0..8).map(|_| ok_reply()).collect();
    let mut client = new_client(replies);
    client.disable_all_channels().unwrap();
    assert_eq!(client.transport.written_count(), 12);
    // power-down | shorted input = 0x81 = 129, registers 5 through 12
    assert_eq!(client.transport.written_at(4), b"{\"COMMAND\":\"wreg\",\"PARAMETERS\":[5,129]}\r\n".to_vec());
    assert_eq!(client.transport.written_at(11), b"{\"COMMAND\":\"wreg\",\"PARAMETERS\":[12,129]}\r\n".to_vec());
}

#[test]
fn test_enable_all_channels_sequence() {
    let replies: Vec<Vec<u8>> = (0..8).map(|_| ok_reply()).collect();
    let mut client = new_client(replies);
    client.enable_all_channels(Some(Gain::X24)).unwrap();
    assert_eq!(client.transport.written_count(), 12);
    // gain x24 bits = 6, registers 5 through 12
    assert_eq!(client.transport.written_at(4), b"{\"COMMAND\":\"wreg\",\"PARAMETERS\":[5,6]}\r\n".to_vec());
    assert_eq!(client.transport.written_at(11), b"{\"COMMAND\":\"wreg\",\"PARAMETERS\":[12,6]}\r\n".to_vec());
}

#[test]
fn test_channel_config_test_sequence() {
    let replies: Vec<Vec<u8>> = (0..9).map(|_| ok_reply()).collect();
    let mut client = new_client(replies);
    client.channel_config_test().unwrap();
    assert_eq!(client.transport.written_count(), 13);
    // CONFIG2 = 2 written with internal 4 Hz test signal: 0x10 | 0xC0 = 208
    assert_eq!(client.transport.written_at(4), b"{\"COMMAND\":\"wreg\",\"PARAMETERS\":[2,208]}\r\n".to_vec());
    // CH1SET = 5 with internal DC test: 0x13 = 19
    assert_eq!(client.transport.written_at(5), b"{\"COMMAND\":\"wreg\",\"PARAMETERS\":[5,19]}\r\n".to_vec());
    // channel 8 disabled last: register 12, power-down | shorted = 129
    assert_eq!(client.transport.written_at(12), b"{\"COMMAND\":\"wreg\",\"PARAMETERS\":[12,129]}\r\n".to_vec());
}

#[test]
fn test_board_led_commands() {
    let mut client = new_client(vec![ok_reply(), ok_reply()]);
    client.board_led_on().unwrap();
    client.board_led_off().unwrap();
    assert_eq!(client.transport.written_at(4), b"{\"COMMAND\":\"boardledon\",\"PARAMETERS\":[]}\r\n".to_vec());
    assert_eq!(client.transport.written_at(5), b"{\"COMMAND\":\"boardledoff\",\"PARAMETERS\":[]}\r\n".to_vec());
}

#[test]
fn test_failed_transition_leaves_mode_unchanged() {
    // the messagepack transaction gets a failure status: the transition
    // aborts and the recorded mode stays JSON lines
    let mut client = new_client(vec![fail_reply()]);
    assert!(client.ensure_mode(Mode::MsgPack).is_err());
    assert_eq!(client.mode, Mode::JsonLines);
}

#[test]
fn test_enable_channel_resumes_streaming_after_bad_status() {
    // the register write fails at the status level: that error is reported,
    // but streaming is resumed best-effort first
    let mut client = new_client(vec![
        ok_reply(),   // rdatac
        ok_reply(),   // the bracket's sdatac
        fail_reply(), // wreg: device says no
        ok_reply(),   // the best-effort rdatac
    ]);
    client.rdatac().unwrap();
    match client.enable_channel(3, Some(Gain::X4)) {
        Err(ClientError::BadStatus(s)) => assert_eq!(s.status_code, 500),
        other => panic!("expected a status error, got {:?}", other),
    }
    assert!(client.continuous_read);
    assert_eq!(client.transport.written_count(), 8);
    assert_eq!(client.transport.written_at(7), b"{\"COMMAND\":\"rdatac\",\"PARAMETERS\":[]}\r\n".to_vec());
}

#[test]
fn test_ensure_mode_text_to_msgpack_fallback() {
    // from text mode the client first toggles back into JSON lines, then
    // issues the messagepack transaction; each text toggle's discarded echo
    // eats one scripted reply
    let mut client = new_client(vec![ok_reply(), ok_reply(), ok_reply()]);
    client.ensure_mode(Mode::Text).unwrap();
    assert_eq!(client.ensure_mode(Mode::MsgPack), Ok(true));
    assert_eq!(client.mode, Mode::MsgPack);
    assert_eq!(client.transport.written_count(), 7);
    assert_eq!(client.transport.written_at(5), b"jsonlines\n".to_vec());
    assert_eq!(
        client.transport.written_at(6),
        b"{\"COMMAND\":\"messagepack\",\"PARAMETERS\":[]}\r\n".to_vec()
    );
}

#[test]
fn test_ensure_mode_msgpack_to_text_sends_two_toggles() {
    let mut client = new_client(vec![ok_reply()]);
    client.ensure_mode(Mode::MsgPack).unwrap();
    assert_eq!(client.ensure_mode(Mode::Text), Ok(true));
    assert_eq!(client.mode, Mode::Text);
    assert_eq!(client.transport.written_count(), 7);
    assert_eq!(client.transport.written_at(5), b"jsonlines\n".to_vec());
    assert_eq!(client.transport.written_at(6), b"messagepack\n".to_vec());
}

#[test]
fn test_start_stop() {
    let mut client = new_client(vec![ok_reply(), ok_reply()]);
    client.start().unwrap();
    client.stop().unwrap();
    assert_eq!(client.transport.written_at(4), b"{\"COMMAND\":\"start\",\"PARAMETERS\":[]}\r\n".to_vec());
    assert_eq!(client.transport.written_at(5), b"{\"COMMAND\":\"stop\",\"PARAMETERS\":[]}\r\n".to_vec());
}
