use tiny_ping::error::Error;
use tiny_ping::packet::icmp::{write_checksum, EchoReply, EchoRequest, IcmpV4, IcmpV6, Proto, HEADER_SIZE};

fn checksum_sum(buffer: &[u8]) -> u16 {
    let mut sum = 0u32;
    for word in buffer.chunks(2) {
        let mut part = u16::from(word[0]) << 8;
        if word.len() > 1 {
            part += u16::from(word[1]);
        }
        sum = sum.wrapping_add(u32::from(part));
    }
    while (sum >> 16) > 0 {
        sum = (sum & 0xffff) + (sum >> 16);
    }
    sum as u16
}

#[test]
fn encodes_echo_request_with_valid_checksum() {
    let request = EchoRequest {
        ident: 0x1234,
        seq_cnt: 7,
    };
    let payload = [1, 2, 3, 4];
    let mut buffer = [0; HEADER_SIZE + 4];

    let encoded = request.encode::<IcmpV4>(&mut buffer, &payload).unwrap();

    assert_eq!(encoded[0], IcmpV4::ECHO_REQUEST_TYPE);
    assert_eq!(encoded[1], IcmpV4::ECHO_REQUEST_CODE);
    assert_eq!(&encoded[4..8], &[0x12, 0x34, 0, 7]);
    assert_eq!(&encoded[8..], &payload);
    assert_eq!(checksum_sum(&encoded), 0xffff);
}

#[test]
fn rejects_wrong_echo_reply_code() {
    let packet = [IcmpV4::ECHO_REPLY_TYPE, 1, 0, 0, 0, 1, 0, 1];

    assert!(matches!(
        EchoReply::decode::<IcmpV4>(&packet),
        Err(Error::InvalidPacket)
    ));
}

#[test]
fn decodes_icmpv6_echo_reply() {
    let packet = [IcmpV6::ECHO_REPLY_TYPE, 0, 0, 0, 0x12, 0x34, 0, 9, 1, 2];
    let reply = EchoReply::decode::<IcmpV6>(&packet).unwrap();

    assert_eq!(reply.ident, 0x1234);
    assert_eq!(reply.seq_cnt, 9);
    assert_eq!(reply.payload, &[1, 2]);
}

#[test]
fn encoded_requests_verify_for_many_payloads() {
    for len in [0usize, 1, 2, 3, 56, 57, 1000, 70001] {
        let payload: Vec<u8> = (0..len).map(|i| (i * 31 + 7) as u8).collect();
        for ident in [0u16, 1, 0xffff] {
            let request = EchoRequest { ident, seq_cnt: 0xfffe };
            let mut buffer = vec![0xaa; HEADER_SIZE + len];
            let v4 = request.encode::<IcmpV4>(&mut buffer, &payload).unwrap();
            assert_eq!(checksum_sum(&v4), 0xffff);
            let v6 = request.encode::<IcmpV6>(&mut buffer, &payload).unwrap();
            assert_eq!(v6[0], 128);
            assert_eq!(checksum_sum(&v6), 0xffff);
        }
    }
}

#[test]
fn encoded_all_ones_payload_verifies_past_32_bit_wrap() {
    let payload = vec![0xffu8; 140000];
    let request = EchoRequest { ident: 0xffff, seq_cnt: 0xffff };
    let mut buffer = vec![0; HEADER_SIZE + payload.len()];
    let encoded = request.encode::<IcmpV4>(&mut buffer, &payload).unwrap();
    assert_eq!(checksum_sum(&encoded), 0xffff);
}

#[test]
fn encode_keeps_bytes_after_the_message() {
    let request = EchoRequest { ident: 1, seq_cnt: 2 };
    let mut buffer = [9u8; HEADER_SIZE + 3];
    let encoded = request.encode::<IcmpV4>(&mut buffer, &[5]).unwrap();
    assert_eq!(encoded.len(), HEADER_SIZE + 3);
    assert_eq!(&encoded[8..], &[5, 9, 9]);
    assert_eq!(&buffer[..], &encoded[..]);
}

#[test]
fn encode_rejects_a_short_buffer_and_leaves_it() {
    let request = EchoRequest { ident: 1, seq_cnt: 2 };
    let mut buffer = [3u8; HEADER_SIZE + 1];
    assert!(matches!(
        request.encode::<IcmpV4>(&mut buffer, &[1, 2]),
        Err(Error::InvalidSize)
    ));
    assert_eq!(buffer, [3u8; HEADER_SIZE + 1]);
}

#[test]
fn echoed_request_decodes_to_its_fields() {
    let request = EchoRequest { ident: 0xbeef, seq_cnt: 300 };
    let payload = [7u8, 8, 9];
    let mut buffer = [0u8; HEADER_SIZE + 3];
    let mut echoed = request.encode::<IcmpV6>(&mut buffer, &payload).unwrap();
    echoed[0] = IcmpV6::ECHO_REPLY_TYPE;
    let reply = EchoReply::decode::<IcmpV6>(&echoed).unwrap();
    assert_eq!(reply.ident, 0xbeef);
    assert_eq!(reply.seq_cnt, 300);
    assert_eq!(reply.payload, &payload);
}

#[test]
fn decode_rejects_short_buffers_and_other_types() {
    assert!(matches!(EchoReply::decode::<IcmpV4>(&[0, 0, 0, 0, 0, 0, 0]), Err(Error::InvalidSize)));
    assert!(matches!(EchoReply::decode::<IcmpV4>(&[8, 0, 0, 0, 0, 0, 0, 0]), Err(Error::InvalidPacket)));
    assert!(matches!(EchoReply::decode::<IcmpV6>(&[0, 0, 0, 0, 0, 0, 0, 0]), Err(Error::InvalidPacket)));
    let empty = EchoReply::decode::<IcmpV4>(&[0, 0, 0, 0, 0, 1, 0, 2]).unwrap();
    assert_eq!(empty.ident, 1);
    assert_eq!(empty.seq_cnt, 2);
    assert!(empty.payload.is_empty());
}

#[test]
fn write_checksum_stores_the_complement_sum() {
    let mut buffer = [8u8, 0, 0, 0, 0x12, 0x34, 0, 7, 1, 2, 3, 4];
    write_checksum(&mut buffer);
    // 0x0800 + 0x1234 + 0x0007 + 0x0102 + 0x0304 = 0x1e41
    assert_eq!(buffer[2], 0xe1);
    assert_eq!(buffer[3], 0xbe);
    assert_eq!(checksum_sum(&buffer), 0xffff);
    let mut odd = [0u8, 0, 0, 0, 0xff];
    write_checksum(&mut odd);
    assert_eq!(&odd[2..4], &[0x00, 0xff]);
    assert_eq!(checksum_sum(&odd), 0xffff);
}
