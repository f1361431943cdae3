use tiny_ping::addr::{IpAddr, Ipv4Addr, Ipv6Addr};
use tiny_ping::error::Error;
use tiny_ping::icmp::EchoRequest;
use tiny_ping::icmp::{reply_from_packet, EchoReply};
use tiny_ping::packet::icmp::{EchoReply as PacketEchoReply, IcmpV4};
use tiny_ping::ping::{
    check_sent, collect_step, decode_received, default_ident, handle_received, ping_outcome,
    remaining_wait, reply_matches, request_payload, CollectStep, PingSettings, RecvStep,
    SocketType, WaitOutcome, DEFAULT_PAYLOAD_SIZE,
};
use std::time::Duration;

#[test]
fn request_payload_respects_size() {
    assert_eq!(request_payload(1, 2, 0), Vec::<u8>::new());
    assert_eq!(request_payload(1, 2, 4), vec![b't', b'p', 0, 1]);
    assert_eq!(request_payload(1, 2, 8), vec![b't', b'p', 0, 1, 0, 2, 0, 8]);
}

#[test]
fn request_payload_pads_with_zeros() {
    let payload = request_payload(0x0102, 0x0304, 0x0156);
    assert_eq!(payload.len(), 0x156);
    assert_eq!(&payload[..8], &[b't', b'p', 1, 2, 3, 4, 0x01, 0x56]);
    assert!(payload[8..].iter().all(|b| *b == 0));
}

fn echo_of(request: &EchoRequest, payload: &[u8], reply_type: u8) -> Vec<u8> {
    let mut packet = request.encode_with_payload(payload).unwrap();
    packet[0] = reply_type;
    packet
}

#[test]
fn own_echo_is_accepted_on_every_socket() {
    let v4 = IpAddr::V4(Ipv4Addr::new(192, 0, 2, 7));
    let payload = request_payload(0x4242, 9, 56);
    let request = EchoRequest::new(v4, 0x4242, 9);
    let echo = echo_of(&request, &payload, 0);

    match handle_received(SocketType::Dgram, v4, Some(v4), &echo, 1, 9, &payload) {
        RecvStep::Accept(reply) => {
            assert_eq!(reply.sequence, 9);
            assert_eq!(reply.source, v4);
            assert_eq!(reply.payload, payload);
        }
        other => panic!("unexpected step {other:?}"),
    }

    let mut raw = vec![0x45, 0, 0, 0, 0, 0, 0, 0, 55, 1, 0, 0, 192, 0, 2, 7, 192, 0, 2, 1];
    raw.extend_from_slice(&echo);
    match handle_received(SocketType::Raw, v4, None, &raw, 0x4242, 9, &payload) {
        RecvStep::Accept(reply) => {
            assert_eq!(reply.ttl, Some(55));
            assert_eq!(reply.identifier, 0x4242);
        }
        other => panic!("unexpected step {other:?}"),
    }

    let v6 = IpAddr::V6(Ipv6Addr::new(0x2001, 0xdb8, 0, 0, 0, 0, 0, 9));
    let request = EchoRequest::new(v6, 7, 8);
    let echo = echo_of(&request, &[], 129);
    assert!(matches!(
        handle_received(SocketType::Raw, v6, None, &echo, 7, 8, &[]),
        RecvStep::Accept(_)
    ));
}

#[test]
fn other_replies_are_skipped_and_bad_buffers_fail() {
    let v4 = IpAddr::V4(Ipv4Addr::new(192, 0, 2, 7));
    let payload = request_payload(5, 9, 16);
    let echo = echo_of(&EchoRequest::new(v4, 5, 9), &payload, 0);
    assert!(matches!(
        handle_received(SocketType::Dgram, v4, None, &echo, 5, 10, &payload),
        RecvStep::Skip
    ));
    assert!(matches!(
        handle_received(SocketType::Raw, v4, None, &echo, 5, 9, &payload),
        RecvStep::Fail(Error::InvalidVersion)
    ));
    let request_not_reply = echo_of(&EchoRequest::new(v4, 5, 9), &payload, 8);
    assert!(matches!(
        handle_received(SocketType::Dgram, v4, None, &request_not_reply, 5, 9, &payload),
        RecvStep::Skip
    ));
    assert!(matches!(
        handle_received(SocketType::Dgram, v4, None, &[0, 0, 0], 5, 9, &payload),
        RecvStep::Fail(Error::InvalidSize)
    ));
}

#[test]
fn identifier_is_compared_on_raw_sockets_only() {
    let v4 = IpAddr::V4(Ipv4Addr::new(10, 1, 1, 1));
    let packet = [0, 0, 0, 0, 0, 3, 0, 4, 1];
    let reply = decode_received(SocketType::Dgram, v4, None, &packet).unwrap();
    assert_eq!(reply.source, v4);
    assert!(reply_matches(&reply, 4, &[1], SocketType::Dgram, 99));
    assert!(!reply_matches(&reply, 4, &[1], SocketType::Raw, 99));
    assert!(reply_matches(&reply, 4, &[1], SocketType::Raw, 3));
    assert!(reply_matches(&reply, 4, &[], SocketType::Raw, 3));
    assert!(!reply_matches(&reply, 4, &[2], SocketType::Raw, 3));
    assert!(!reply_matches(&reply, 5, &[1], SocketType::Raw, 3));
}

#[test]
fn sends_and_identifiers() {
    assert!(check_sent(64, 64).is_ok());
    assert!(matches!(check_sent(63, 64), Err(Error::InvalidSize)));
    assert_eq!(default_ident(7, 1), 8);
    assert_eq!(default_ident(0x1_fffe, 3), 1);
}

fn some_reply(seq: u8) -> EchoReply {
    let v4 = IpAddr::V4(Ipv4Addr::new(10, 0, 0, seq));
    EchoReply::decode_dgram(v4, &[0, 0, 0, 0, 0, 1, 0, seq, 9]).unwrap()
}

#[test]
fn single_ping_times_out_with_an_error() {
    assert!(matches!(ping_outcome(WaitOutcome::TimedOut), Err(Error::Timeout)));
    assert!(matches!(
        ping_outcome(WaitOutcome::Received(Err(Error::InvalidVersion))),
        Err(Error::InvalidVersion)
    ));
    let reply = ping_outcome(WaitOutcome::Received(Ok(some_reply(3)))).unwrap();
    assert_eq!(reply, some_reply(3));
}

#[test]
fn collecting_ends_without_error_on_timeout() {
    let replies = match collect_step(Vec::new(), WaitOutcome::Received(Ok(some_reply(1)))) {
        CollectStep::Continue(v) => v,
        other => panic!("unexpected step {other:?}"),
    };
    let replies = match collect_step(replies, WaitOutcome::Received(Ok(some_reply(2)))) {
        CollectStep::Continue(v) => v,
        other => panic!("unexpected step {other:?}"),
    };
    assert_eq!(replies, vec![some_reply(1), some_reply(2)]);
    match collect_step(replies.clone(), WaitOutcome::TimedOut) {
        CollectStep::Finish(Ok(v)) => assert_eq!(v, replies),
        other => panic!("unexpected step {other:?}"),
    }
    assert!(matches!(
        collect_step(replies, WaitOutcome::Received(Err(Error::TooSmallHeader))),
        CollectStep::Finish(Err(Error::TooSmallHeader))
    ));
}

#[test]
fn remaining_wait_counts_down_to_none() {
    assert_eq!(remaining_wait(0, 2_000_000_000), Some(2_000_000_000));
    assert_eq!(remaining_wait(500, 2_000), Some(1_500));
    assert_eq!(remaining_wait(2_000, 2_000), Some(0));
    assert_eq!(remaining_wait(2_001, 2_000), None);
}

#[test]
fn settings_start_from_defaults_and_change_one_at_a_time() {
    let mut settings = PingSettings::new(42, Duration::from_secs(2));
    assert_eq!(settings.ident, 42);
    assert_eq!(settings.size, DEFAULT_PAYLOAD_SIZE);
    assert_eq!(settings.size, 56);
    assert_eq!(settings.timeout, Duration::from_secs(2));
    assert_eq!(settings.ttl, None);
    settings.ident(7);
    settings.size(0);
    settings.timeout(Duration::from_millis(10));
    settings.ttl(64);
    assert_eq!(settings.ident, 7);
    assert_eq!(settings.size, 0);
    assert_eq!(settings.timeout, Duration::from_millis(10));
    assert_eq!(settings.ttl, Some(64));
}

#[test]
fn reply_from_packet_keeps_fields_and_lengths() {
    let packet = PacketEchoReply::decode::<IcmpV4>(&[0, 0, 0, 0, 0x12, 0x34, 0, 7, 1, 2, 3]).unwrap();
    let source = IpAddr::V6(Ipv6Addr::new(0, 0, 0, 0, 0, 0, 0, 1));
    let reply = reply_from_packet(source, Some(9), packet);
    assert_eq!(reply.source, source);
    assert_eq!(reply.ttl, Some(9));
    assert_eq!(reply.identifier, 0x1234);
    assert_eq!(reply.sequence, 7);
    assert_eq!(reply.payload, vec![1, 2, 3]);
    assert_eq!(reply.payload_len, 3);
    assert_eq!(reply.size, 3);
}
