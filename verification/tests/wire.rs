use haproxy_api::protocol::{
    classify_reply, parse_request, render_reply, server_reply, subscribe_line,
};
use haproxy_api::{Reply, Request};

#[test]
fn parse_ping() {
    assert_eq!(parse_request(b"PING"), Request::Ping);
    assert_eq!(parse_request(b"  PING\r"), Request::Ping);
}

#[test]
fn parse_task_id() {
    assert_eq!(parse_request(b"0"), Request::Subscribe(0));
    assert_eq!(parse_request(b"42"), Request::Subscribe(42));
    assert_eq!(parse_request(b" 42 "), Request::Subscribe(42));
    assert_eq!(parse_request(b"65535"), Request::Subscribe(65535));
}

#[test]
fn parse_rejects_out_of_range_id() {
    assert_eq!(parse_request(b"65536"), Request::Invalid);
    assert_eq!(parse_request(b"999999999999"), Request::Invalid);
}

#[test]
fn parse_rejects_garbage() {
    assert_eq!(parse_request(b""), Request::Invalid);
    assert_eq!(parse_request(b"   "), Request::Invalid);
    assert_eq!(parse_request(b"abc"), Request::Invalid);
    assert_eq!(parse_request(b"12a"), Request::Invalid);
    assert_eq!(parse_request(b"+5"), Request::Invalid);
    assert_eq!(parse_request(b"PONG"), Request::Invalid);
    assert_eq!(parse_request(b"4 2"), Request::Invalid);
}

#[test]
fn subscribe_line_renders_decimal() {
    assert_eq!(subscribe_line(0), b"0\n".to_vec());
    assert_eq!(subscribe_line(7), b"7\n".to_vec());
    assert_eq!(subscribe_line(10), b"10\n".to_vec());
    assert_eq!(subscribe_line(12345), b"12345\n".to_vec());
    assert_eq!(subscribe_line(65535), b"65535\n".to_vec());
}

#[test]
fn subscribe_round_trip_on_the_wire() {
    for id in [0u16, 1, 9, 10, 99, 100, 4096, 65535] {
        let mut line = subscribe_line(id);
        assert_eq!(line.pop(), Some(b'\n'));
        assert_eq!(parse_request(&line), Request::Subscribe(id));
    }
}

#[test]
fn reply_lines() {
    assert_eq!(render_reply(&Reply::Pong), b"PONG\n".to_vec());
    assert_eq!(render_reply(&Reply::Ready), b"READY\n".to_vec());
    assert_eq!(render_reply(&Reply::UnknownId), b"ERR\n".to_vec());
}

#[test]
fn classify_replies() {
    assert_eq!(classify_reply(b"PONG"), Reply::Pong);
    assert_eq!(classify_reply(b"READY"), Reply::Ready);
    assert_eq!(classify_reply(b"ERR"), Reply::UnknownId);
    assert_eq!(classify_reply(b"READY?"), Reply::UnknownId);
    assert_eq!(classify_reply(b""), Reply::UnknownId);
}

#[test]
fn reply_round_trip_on_the_wire() {
    for r in [Reply::Pong, Reply::Ready, Reply::UnknownId] {
        let line = render_reply(&r);
        assert_eq!(classify_reply(&line), r);
    }
}

#[test]
fn server_reply_decision() {
    assert_eq!(server_reply(&Request::Ping, false), Some(Reply::Pong));
    assert_eq!(server_reply(&Request::Ping, true), Some(Reply::Pong));
    assert_eq!(server_reply(&Request::Subscribe(3), true), Some(Reply::Ready));
    assert_eq!(server_reply(&Request::Subscribe(3), false), Some(Reply::UnknownId));
    assert_eq!(server_reply(&Request::Invalid, true), None);
    assert_eq!(server_reply(&Request::Invalid, false), None);
}
