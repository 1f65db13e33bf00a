use rust_mcp_sdk::transport::{
    decode_tcp_payload, encode_length_prefixed, encode_tcp_message, frame_message, is_message_line,
    line_bytes, read_frame, FramePoll, FrameReader, MessageFrame,
};
use rust_mcp_sdk::{McpError, McpMessage, Notification, Request};

#[test]
fn message_frame_bytes() {
    let frame = MessageFrame("héllo".to_string());
    assert_eq!(frame.as_bytes(), "héllo".as_bytes());
    assert_eq!(line_bytes(&frame), b"h\xc3\xa9llo\n".to_vec());
}

#[test]
fn blank_lines_are_skipped() {
    assert!(!is_message_line(""));
    assert!(!is_message_line("  \t\r"));
    assert!(is_message_line(" {} "));
}

#[test]
fn stdio_frames_round_trip() {
    let message = McpMessage::Notification(Notification::new("ping", None));
    let frame = frame_message(&message).unwrap();
    assert_eq!(frame.0, r#"{"jsonrpc":"2.0","method":"ping"}"#);
    assert_eq!(read_frame(&frame).unwrap(), message);
}

#[test]
fn length_prefix_is_big_endian() {
    assert_eq!(encode_length_prefixed(b"abc").unwrap(), vec![0, 0, 0, 3, b'a', b'b', b'c']);
    let long = vec![7u8; 258];
    assert_eq!(encode_length_prefixed(&long).unwrap()[..4], [0, 0, 1, 2]);
}

#[test]
fn frame_reader_cuts_frames_in_order() {
    let m1 = McpMessage::Request(Request::new(1u64.into(), "a", None));
    let m2 = McpMessage::Notification(Notification::new("b", None));
    let mut bytes = encode_tcp_message(&m1).unwrap();
    bytes.extend(encode_tcp_message(&m2).unwrap());
    let mut reader = FrameReader::new();
    assert!(matches!(reader.poll(), FramePoll::NeedHeader));
    reader.feed(&bytes[..2]);
    assert!(matches!(reader.poll(), FramePoll::NeedHeader));
    reader.feed(&bytes[2..6]);
    let first_len = u32::from_be_bytes([bytes[0], bytes[1], bytes[2], bytes[3]]) as usize;
    match reader.poll() {
        FramePoll::NeedPayload(k) => assert_eq!(k, first_len - 2),
        _ => panic!("expected a partial payload"),
    }
    reader.feed(&bytes[6..]);
    match reader.poll() {
        FramePoll::Frame(p) => assert_eq!(decode_tcp_payload(p).unwrap(), m1),
        _ => panic!("expected a frame"),
    }
    match reader.poll() {
        FramePoll::Frame(p) => assert_eq!(decode_tcp_payload(p).unwrap(), m2),
        _ => panic!("expected a frame"),
    }
    assert!(matches!(reader.poll(), FramePoll::NeedHeader));
    assert_eq!(reader.buffered(), 0);
}

#[test]
fn invalid_utf8_payload_is_a_protocol_error() {
    match decode_tcp_payload(vec![0xff, 0xfe]) {
        Err(McpError::ProtocolError(m)) => assert!(m.starts_with("Invalid UTF-8 in payload: ")),
        other => panic!("unexpected {:?}", other),
    }
}

#[test]
fn later_bytes_do_not_change_a_complete_frame() {
    let frame = encode_length_prefixed(b"xyz").unwrap();
    let mut reader = FrameReader::new();
    reader.feed(&frame);
    reader.feed(&[0, 0]);
    match reader.poll() {
        FramePoll::Frame(p) => assert_eq!(p, b"xyz".to_vec()),
        _ => panic!("expected a frame"),
    }
    assert_eq!(reader.buffered(), 2);
    assert!(matches!(reader.poll(), FramePoll::NeedHeader));
}

#[test]
fn two_frames_in_any_chunks_come_out_in_order() {
    let mut bytes = encode_length_prefixed(b"first").unwrap();
    bytes.extend(encode_length_prefixed(b"").unwrap());
    bytes.extend(encode_length_prefixed(b"second!").unwrap());
    for size in 1..=bytes.len() {
        let mut reader = FrameReader::new();
        let mut frames: Vec<Vec<u8>> = Vec::new();
        for chunk in bytes.chunks(size) {
            reader.feed(chunk);
            while let FramePoll::Frame(p) = reader.poll() {
                frames.push(p);
            }
        }
        assert_eq!(frames, vec![b"first".to_vec(), Vec::new(), b"second!".to_vec()]);
        assert_eq!(reader.buffered(), 0);
    }
}

#[test]
fn tcp_message_is_its_compact_text_behind_its_length() {
    let m = McpMessage::Notification(Notification::new("ping", None));
    let text = br#"{"jsonrpc":"2.0","method":"ping"}"#;
    let mut expected = (text.len() as u32).to_be_bytes().to_vec();
    expected.extend_from_slice(text);
    assert_eq!(encode_tcp_message(&m).unwrap(), expected);
}
