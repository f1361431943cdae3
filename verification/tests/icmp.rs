use tiny_ping::addr::{IpAddr, Ipv4Addr, Ipv6Addr};
use tiny_ping::error::Error;
use tiny_ping::icmp::{EchoReply, EchoRequest};

#[test]
fn decodes_raw_ipv4_reply_with_header_metadata() {
    let packet = [
        0x45, 0, 0, 30, 0, 0, 0, 0, 42, 1, 0, 0, 203, 0, 113, 9, 8, 8, 8, 8, 0, 0, 0, 0, 0x12,
        0x34, 0, 7, b'o', b'k',
    ];

    let reply = EchoReply::decode_raw(IpAddr::V4(Ipv4Addr::new(8, 8, 8, 8)), &packet).unwrap();

    assert_eq!(reply.source, IpAddr::V4(Ipv4Addr::new(203, 0, 113, 9)));
    assert_eq!(reply.ttl, Some(42));
    assert_eq!(reply.identifier, 0x1234);
    assert_eq!(reply.sequence, 7);
    assert_eq!(reply.payload, b"ok");
    assert_eq!(reply.payload_len, 2);
}

#[test]
fn decodes_dgram_ipv4_reply_without_ip_header() {
    let packet = [0, 0, 0, 0, 0x12, 0x34, 0, 7, b'o', b'k'];
    let source = IpAddr::V4(Ipv4Addr::new(203, 0, 113, 9));

    let reply = EchoReply::decode_dgram(source, &packet).unwrap();

    assert_eq!(reply.source, source);
    assert_eq!(reply.ttl, None);
    assert_eq!(reply.identifier, 0x1234);
    assert_eq!(reply.sequence, 7);
    assert_eq!(reply.payload, b"ok");
}

#[test]
fn decodes_ipv6_reply_without_ip_header() {
    let source = IpAddr::V6(Ipv6Addr::new(0x2001, 0xdb8, 0, 0, 0, 0, 0, 1));
    let packet = [129, 0, 0, 0, 0x12, 0x34, 0, 7, b'o', b'k'];

    let reply = EchoReply::decode_raw(source, &packet).unwrap();

    assert_eq!(reply.source, source);
    assert_eq!(reply.ttl, None);
    assert_eq!(reply.identifier, 0x1234);
    assert_eq!(reply.sequence, 7);
    assert_eq!(reply.payload, b"ok");
}

#[test]
fn decode_is_decode_raw_and_keeps_both_lengths() {
    let source = IpAddr::V6(Ipv6Addr::new(0xfe80, 0, 0, 0, 0, 0, 0, 2));
    let packet = [129, 0, 0, 0, 0, 1, 0, 2, 1, 2, 3];
    let reply = EchoReply::decode(source, &packet).unwrap();
    assert_eq!(reply, EchoReply::decode_raw(source, &packet).unwrap());
    assert_eq!(reply.payload_len, 3);
    assert_eq!(reply.size, 3);
}

#[test]
fn decode_reports_the_failing_layer() {
    let v4 = IpAddr::V4(Ipv4Addr::new(127, 0, 0, 1));
    assert!(matches!(EchoReply::decode_raw(v4, &[0x45; 10]), Err(Error::TooSmallHeader)));
    let ip_only = [
        0x45, 0, 0, 20, 0, 0, 0, 0, 42, 1, 0, 0, 203, 0, 113, 9, 8, 8, 8, 8,
    ];
    assert!(matches!(EchoReply::decode_raw(v4, &ip_only), Err(Error::InvalidSize)));
    assert!(matches!(
        EchoReply::decode_dgram(v4, &[8, 0, 0, 0, 0, 0, 0, 0]),
        Err(Error::InvalidPacket)
    ));
    let v6 = IpAddr::V6(Ipv6Addr::new(0, 0, 0, 0, 0, 0, 0, 1));
    assert!(matches!(
        EchoReply::decode_dgram(v6, &[0, 0, 0, 0, 0, 0, 0, 0]),
        Err(Error::InvalidPacket)
    ));
}

#[test]
fn requests_take_the_destination_family() {
    let v4 = EchoRequest::new(IpAddr::V4(Ipv4Addr::new(1, 1, 1, 1)), 0x0102, 0x0304);
    let packet = v4.encode_with_payload(&[0xaa]).unwrap();
    assert_eq!(&packet[..2], &[8, 0]);
    assert_eq!(&packet[4..], &[1, 2, 3, 4, 0xaa]);

    let v6 = EchoRequest::new(IpAddr::V6(Ipv6Addr::new(0, 0, 0, 0, 0, 0, 0, 1)), 5, 6);
    let packet = v6.encode_with_payload(&[]).unwrap();
    assert_eq!(packet.len(), 8);
    assert_eq!(&packet[..2], &[128, 0]);
    assert_eq!(&packet[4..], &[0, 5, 0, 6]);
}

#[test]
fn addresses_keep_their_parts() {
    assert_eq!(Ipv4Addr::new(192, 0, 2, 1).octets(), [192, 0, 2, 1]);
    assert_eq!(
        Ipv6Addr::new(0x2001, 0xdb8, 0, 0, 0, 0, 0, 1).segments(),
        [0x2001, 0xdb8, 0, 0, 0, 0, 0, 1]
    );
    assert!(IpAddr::V6(Ipv6Addr::new(0, 0, 0, 0, 0, 0, 0, 1)).is_ipv6());
    assert!(!IpAddr::V4(Ipv4Addr::new(0, 0, 0, 0)).is_ipv6());
}
