use debugger::common::Error;
use debugger::dap::codec::{read_message, write_message};
use debugger::ipc::transport::{frame_length, frame_message, read_frame};

#[test]
fn test_read_message() {
    let data = b"Content-Length: 13\r\n\r\n{\"test\":true}";
    let (result, used) = read_message(data).unwrap();
    assert_eq!(result, "{\"test\":true}");
    assert_eq!(used, data.len());
}

#[test]
fn test_read_message_with_extra_headers() {
    let data = b"Content-Length: 13\r\nContent-Type: application/json\r\n\r\n{\"test\":true}";
    let (result, _) = read_message(data).unwrap();
    assert_eq!(result, "{\"test\":true}");
}

#[test]
fn test_write_message() {
    let output = write_message("{\"test\":true}");
    let expected = "Content-Length: 13\r\n\r\n{\"test\":true}";
    assert_eq!(String::from_utf8(output).unwrap(), expected);
}

#[test]
fn read_after_write_gives_the_body_back() {
    let body = "{\"seq\":1,\"text\":\"héllo\"}";
    let bytes = write_message(body);
    let (back, used) = read_message(&bytes).unwrap();
    assert_eq!(back, body);
    assert_eq!(used, bytes.len());
}

#[test]
fn read_stops_after_one_message() {
    let mut data = write_message("{}");
    data.extend_from_slice(&write_message("[1]"));
    let (first, used) = read_message(&data).unwrap();
    assert_eq!(first, "{}");
    let (second, _) = read_message(&data[used..]).unwrap();
    assert_eq!(second, "[1]");
}

#[test]
fn read_without_length_fails() {
    assert!(read_message(b"Content-Type: x\r\n\r\n{}").is_err());
    assert!(matches!(read_message(b"Content-Length: 5\r\n\r\n{}"), Err(Error::AdapterCrashed)));
}

#[test]
fn frames_round_trip() {
    let framed = frame_message(b"hello").unwrap();
    assert_eq!(&framed[..4], &[5, 0, 0, 0]);
    assert_eq!(frame_length(&framed[..4]).unwrap(), 5);
    let (payload, used) = read_frame(&framed).unwrap();
    assert_eq!(payload, b"hello".to_vec());
    assert_eq!(used, 9);
}

#[test]
fn cut_or_malformed_messages_are_refused() {
    let whole = write_message("{\"seq\":1}");
    for k in (whole.len() - 9)..whole.len() {
        assert!(matches!(read_message(&whole[..k]), Err(Error::AdapterCrashed)));
    }
    match read_message(b"\r\n{}") {
        Err(Error::DapProtocol(m)) => assert_eq!(m, "Missing Content-Length header"),
        other => panic!("unexpected {:?}", other),
    }
    match read_message(b"Content-Length: 104857601\r\n\r\n") {
        Err(Error::DapProtocol(m)) => assert_eq!(m, "Content-Length too large: 104857601 bytes"),
        other => panic!("unexpected {:?}", other),
    }
}

#[test]
fn headers_cut_or_bad_are_refused() {
    assert!(matches!(read_message(b""), Err(Error::AdapterCrashed)));
    assert!(matches!(read_message(b"Content-Length: 2\r\n"), Err(Error::AdapterCrashed)));
    assert!(matches!(read_message(b"Content-Length: 2\r\n\r"), Err(Error::AdapterCrashed)));
    match read_message(b"Content-Length: x\r\n\r\n") {
        Err(Error::DapProtocol(m)) => assert_eq!(m, "Invalid Content-Length: x"),
        other => panic!("unexpected {:?}", other),
    }
    match read_message(b"Content-Length: 2\r\n\r\n\xff\xfe") {
        Err(Error::DapProtocol(m)) => assert!(m.starts_with("Invalid UTF-8: ")),
        other => panic!("unexpected {:?}", other),
    }
}
