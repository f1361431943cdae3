use tiny_ping::addr::{IpAddr, Ipv4Addr};
use tiny_ping::error::Error;
use tiny_ping::packet::ipv4::{IpV4Packet, IpV4Protocol};

#[test]
fn decodes_ipv4_header_metadata_and_payload() {
    let packet = [
        0x45, 0, 0, 28, 0, 0, 0, 0, 63, 1, 0, 0, 192, 0, 2, 1, 8, 8, 8, 8, 0, 0, 0, 0, 0, 1, 0,
        2,
    ];

    let decoded = IpV4Packet::decode(&packet).unwrap();

    assert_eq!(decoded.protocol, IpV4Protocol::Icmp);
    assert_eq!(decoded.source, IpAddr::V4(Ipv4Addr::new(192, 0, 2, 1)));
    assert_eq!(decoded.ttl, 63);
    assert_eq!(decoded.data, &[0, 0, 0, 0, 0, 1, 0, 2]);
}

#[test]
fn rejects_too_small_ihl() {
    let packet = [
        0x44, 0, 0, 20, 0, 0, 0, 0, 63, 1, 0, 0, 192, 0, 2, 1, 8, 8, 8, 8,
    ];

    assert!(matches!(
        IpV4Packet::decode(&packet),
        Err(Error::InvalidHeaderSize)
    ));
}

fn header(byte0: u8, protocol: u8) -> Vec<u8> {
    vec![
        byte0, 0, 0, 20, 0, 0, 0, 0, 64, protocol, 0, 0, 10, 0, 0, 1, 10, 0, 0, 2,
    ]
}

#[test]
fn ipv4_decode_errors() {
    assert!(matches!(IpV4Packet::decode(&[0x45; 19]), Err(Error::TooSmallHeader)));
    assert!(matches!(IpV4Packet::decode(&header(0x65, 1)), Err(Error::InvalidVersion)));
    assert!(matches!(IpV4Packet::decode(&header(0x46, 1)), Err(Error::InvalidHeaderSize)));
    assert!(matches!(IpV4Packet::decode(&header(0x45, 6)), Err(Error::UnknownProtocol)));
}

#[test]
fn ipv4_decode_skips_options() {
    let mut packet = header(0x46, 1);
    packet.extend_from_slice(&[1, 2, 3, 4, 0xaa, 0xbb]);
    let decoded = IpV4Packet::decode(&packet).unwrap();
    assert_eq!(decoded.data, &[0xaa, 0xbb]);
    assert_eq!(decoded.source, IpAddr::V4(Ipv4Addr::new(10, 0, 0, 1)));
    assert_eq!(decoded.ttl, 64);
}

#[test]
fn protocol_numbers() {
    assert_eq!(IpV4Protocol::decode(1), Some(IpV4Protocol::Icmp));
    assert_eq!(IpV4Protocol::decode(0), None);
    assert_eq!(IpV4Protocol::decode(58), None);
}
