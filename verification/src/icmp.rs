//! Echo requests and replies at the level of addresses: which ICMP version
//! a destination takes, and what a received buffer holds for each kind of
//! socket.
use vstd::prelude::*;
use vstd::slice::slice_to_vec;

use crate::addr::IpAddr;
use crate::error::{Error, Result};
use crate::packet::checksum::ones_complement_sum;
use crate::packet::icmp::{
    echo_message, lemma_echo_message_checksum_verifies, lemma_echo_message_layout,
    lemma_echo_reply_decoding, lemma_echo_types, parse_echo_reply, EchoReply as PacketEchoReply,
    EchoRequest as PacketEchoRequest, IcmpV4, IcmpV6, Proto, HEADER_SIZE,
};
use crate::packet::ipv4::{lemma_ipv4_decoding, parse_ipv4, IpV4Packet};

verus! {

/// The ICMP type of an echo request to `destination`.
pub open spec fn request_type(destination: IpAddr) -> u8 {
    match destination {
        IpAddr::V4(_) => IcmpV4::ECHO_REQUEST_TYPE,
        IpAddr::V6(_) => IcmpV6::ECHO_REQUEST_TYPE,
    }
}

/// The ICMP code of an echo request to `destination`.
pub open spec fn request_code(destination: IpAddr) -> u8 {
    match destination {
        IpAddr::V4(_) => IcmpV4::ECHO_REQUEST_CODE,
        IpAddr::V6(_) => IcmpV6::ECHO_REQUEST_CODE,
    }
}

/// The ICMP type of an echo reply from `source`.
pub open spec fn reply_type(source: IpAddr) -> u8 {
    match source {
        IpAddr::V4(_) => IcmpV4::ECHO_REPLY_TYPE,
        IpAddr::V6(_) => IcmpV6::ECHO_REPLY_TYPE,
    }
}

/// The ICMP code of an echo reply from `source`.
pub open spec fn reply_code(source: IpAddr) -> u8 {
    match source {
        IpAddr::V4(_) => IcmpV4::ECHO_REPLY_CODE,
        IpAddr::V6(_) => IcmpV6::ECHO_REPLY_CODE,
    }
}

/// An echo request to a destination.
#[derive(Debug)]
pub struct EchoRequest {
    pub destination: IpAddr,
    pub ident: u16,
    pub seq_cnt: u16,
}

impl EchoRequest {
    pub fn new(destination: IpAddr, ident: u16, seq_cnt: u16) -> (r: Self)
        ensures
            r.destination == destination,
            r.ident == ident,
            r.seq_cnt == seq_cnt,
    {
        EchoRequest { destination, ident, seq_cnt }
    }

    /// Encodes the request with `payload`, as ICMPv4 or ICMPv6 by the
    /// destination's address family.
    pub fn encode_with_payload(&self, payload: &[u8]) -> (res: Result<Vec<u8>>)
        requires
            payload@.len() + HEADER_SIZE <= usize::MAX,
        ensures
            res matches Ok(v) && v@ == echo_message(
                request_type(self.destination),
                request_code(self.destination),
                self.ident,
                self.seq_cnt,
                payload@,
            ),
    {
        match self.destination {
            IpAddr::V4(_) => self.encode_icmp_v4(payload),
            IpAddr::V6(_) => self.encode_icmp_v6(payload),
        }
    }

    /// Encodes as an ICMPv4 EchoRequest.
    fn encode_icmp_v4(&self, payload: &[u8]) -> (res: Result<Vec<u8>>)
        requires
            payload@.len() + HEADER_SIZE <= usize::MAX,
        ensures
            res matches Ok(v) && v@ == echo_message(
                IcmpV4::ECHO_REQUEST_TYPE,
                IcmpV4::ECHO_REQUEST_CODE,
                self.ident,
                self.seq_cnt,
                payload@,
            ),
    {
        let req = PacketEchoRequest { ident: self.ident, seq_cnt: self.seq_cnt };
        let mut buffer = vec![0; HEADER_SIZE + payload.len()];
        req.encode::<IcmpV4>(buffer.as_mut_slice(), payload)
    }

    /// Encodes as an ICMPv6 EchoRequest.
    fn encode_icmp_v6(&self, payload: &[u8]) -> (res: Result<Vec<u8>>)
        requires
            payload@.len() + HEADER_SIZE <= usize::MAX,
        ensures
            res matches Ok(v) && v@ == echo_message(
                IcmpV6::ECHO_REQUEST_TYPE,
                IcmpV6::ECHO_REQUEST_CODE,
                self.ident,
                self.seq_cnt,
                payload@,
            ),
    {
        let req = PacketEchoRequest { ident: self.ident, seq_cnt: self.seq_cnt };
        let mut buffer = vec![0; HEADER_SIZE + payload.len()];
        req.encode::<IcmpV6>(buffer.as_mut_slice(), payload)
    }
}


/// What the library reports of an echo reply: TTL, source, sequence number,
/// identifier and payload.
pub type ReplyFields = (Option<u8>, IpAddr, u16, u16, Seq<u8>);

/// The reply fields from an echo message that was parsed as `parsed`, with
/// the source and TTL that the layers around it give.
pub open spec fn reply_fields(
    source: IpAddr,
    ttl: Option<u8>,
    parsed: core::result::Result<(u16, u16, Seq<u8>), Error>,
) -> core::result::Result<ReplyFields, Error> {
    match parsed {
        Ok((ident, seq_cnt, payload)) => Ok((ttl, source, seq_cnt, ident, payload)),
        Err(e) => Err(e),
    }
}

/// What an IPv4 raw socket delivers decodes to: the IPv4 header gives the
/// source and the TTL, and the ICMPv4 echo reply follows it.
pub open spec fn ipv4_raw_reply(b: Seq<u8>) -> core::result::Result<ReplyFields, Error> {
    match parse_ipv4(b) {
        Err(e) => Err(e),
        Ok((_, source, ttl, data)) => reply_fields(
            IpAddr::V4(source),
            Some(ttl),
            parse_echo_reply(IcmpV4::ECHO_REPLY_TYPE, IcmpV4::ECHO_REPLY_CODE, data),
        ),
    }
}

/// An ICMPv4 echo reply without an IP header, from `source`.
pub open spec fn ipv4_dgram_reply(source: IpAddr, b: Seq<u8>) -> core::result::Result<ReplyFields, Error> {
    reply_fields(source, None, parse_echo_reply(IcmpV4::ECHO_REPLY_TYPE, IcmpV4::ECHO_REPLY_CODE, b))
}

/// An ICMPv6 echo reply, which sockets deliver without an IP header, from `source`.
pub open spec fn ipv6_reply(source: IpAddr, b: Seq<u8>) -> core::result::Result<ReplyFields, Error> {
    reply_fields(source, None, parse_echo_reply(IcmpV6::ECHO_REPLY_TYPE, IcmpV6::ECHO_REPLY_CODE, b))
}

/// What a raw socket for `addr`'s family delivers decodes to.
pub open spec fn raw_reply(addr: IpAddr, b: Seq<u8>) -> core::result::Result<ReplyFields, Error> {
    match addr {
        IpAddr::V4(_) => ipv4_raw_reply(b),
        IpAddr::V6(_) => ipv6_reply(addr, b),
    }
}

/// What a datagram socket delivers from `source` decodes to.
pub open spec fn dgram_reply(source: IpAddr, b: Seq<u8>) -> core::result::Result<ReplyFields, Error> {
    match source {
        IpAddr::V4(_) => ipv4_dgram_reply(source, b),
        IpAddr::V6(_) => ipv6_reply(source, b),
    }
}

/// A reply carries a TTL exactly when it was read from an IPv4 header, that
/// is from a raw IPv4 socket; ICMPv6 replies and datagram replies carry none.
pub proof fn lemma_ttl_from_ipv4_header(addr: IpAddr, b: Seq<u8>)
    ensures
        raw_reply(addr, b) matches Ok(f) ==> (f.0 is Some <==> addr is V4),
        dgram_reply(addr, b) matches Ok(f) ==> f.0 is None,
{
}

/// `EchoReply` struct, which contains some packet information.
#[derive(Clone, Debug, Eq, PartialEq)]
#[non_exhaustive]
pub struct EchoReply {
    /// IP Time To Live for outgoing packets. Present for ICMPv4 replies,
    /// absent for ICMPv6 replies.
    pub ttl: Option<u8>,
    /// Source address of ICMP packet.
    pub source: IpAddr,
    /// Sequence of ICMP packet.
    pub sequence: u16,
    /// Identifier of ICMP packet.
    pub identifier: u16,
    /// Size of ICMP echo payload.
    pub payload_len: usize,
    /// ICMP echo payload.
    pub payload: Vec<u8>,
    /// Deprecated alias for `payload_len`.
    pub size: usize,
}

impl EchoReply {
    /// The reply's fields as values.
    pub open spec fn fields(&self) -> ReplyFields {
        (self.ttl, self.source, self.sequence, self.identifier, self.payload@)
    }

    /// Both length fields give the payload's length.
    pub open spec fn lengths_agree(&self) -> bool {
        &&& self.payload_len == self.payload@.len()
        &&& self.size == self.payload_len
    }

    /// Unpack IP packets received from socket as `EchoReply` struct.
    pub fn decode(addr: IpAddr, buf: &[u8]) -> (res: Result<EchoReply>)
        ensures
            match raw_reply(addr, buf@) {
                Ok(f) => res matches Ok(r) && r.fields() == f && r.lengths_agree(),
                Err(e) => res matches Err(x) && x == e,
            },
    {
        Self::decode_raw(addr, buf)
    }

    /// Decodes what a raw socket delivered for a target of `addr`'s family.
    pub fn decode_raw(addr: IpAddr, buf: &[u8]) -> (res: Result<EchoReply>)
        ensures
            match raw_reply(addr, buf@) {
                Ok(f) => res matches Ok(r) && r.fields() == f && r.lengths_agree(),
                Err(e) => res matches Err(x) && x == e,
            },
    {
        match addr {
            IpAddr::V4(_) => decode_icmpv4(addr, buf),
            IpAddr::V6(_) => decode_icmpv6(addr, buf),
        }
    }

    /// Decodes what a datagram socket delivered from `source`.
    pub fn decode_dgram(source: IpAddr, buf: &[u8]) -> (res: Result<EchoReply>)
        ensures
            match dgram_reply(source, buf@) {
                Ok(f) => res matches Ok(r) && r.fields() == f && r.lengths_agree(),
                Err(e) => res matches Err(x) && x == e,
            },
    {
        match source {
            IpAddr::V4(_) => decode_icmpv4_dgram(source, buf),
            IpAddr::V6(_) => decode_icmpv6(source, buf),
        }
    }
}

/// Decodes an ICMPv4 packet received from an IPv4 raw socket
fn decode_icmpv4(_addr: IpAddr, buf: &[u8]) -> (res: Result<EchoReply>)
    ensures
        match ipv4_raw_reply(buf@) {
            Ok(f) => res matches Ok(r) && r.fields() == f && r.lengths_agree(),
            Err(e) => res matches Err(x) && x == e,
        },
{
    let ipv4_decoded = IpV4Packet::decode(buf)?;
    let source = ipv4_decoded.source;
    let ttl = Some(ipv4_decoded.ttl);
    let icmp_decoded = PacketEchoReply::decode::<IcmpV4>(ipv4_decoded.data)?;
    Ok(reply_from_packet(source, ttl, icmp_decoded))
}

/// Decodes an ICMPv4 packet received from an IPv4 datagram socket.
fn decode_icmpv4_dgram(source: IpAddr, buf: &[u8]) -> (res: Result<EchoReply>)
    ensures
        match ipv4_dgram_reply(source, buf@) {
            Ok(f) => res matches Ok(r) && r.fields() == f && r.lengths_agree(),
            Err(e) => res matches Err(x) && x == e,
        },
{
    let icmp_decoded = PacketEchoReply::decode::<IcmpV4>(buf)?;
    Ok(reply_from_packet(source, None, icmp_decoded))
}

/// Decodes an ICMPv6 packet received from an IPv6 raw socket
fn decode_icmpv6(source: IpAddr, buf: &[u8]) -> (res: Result<EchoReply>)
    ensures
        match ipv6_reply(source, buf@) {
            Ok(f) => res matches Ok(r) && r.fields() == f && r.lengths_agree(),
            Err(e) => res matches Err(x) && x == e,
        },
{
    let icmp_decoded = PacketEchoReply::decode::<IcmpV6>(buf)?;
    Ok(reply_from_packet(source, None, icmp_decoded))
}

/// The reply that an echo message from `source` makes, with the TTL of the
/// IPv4 header it came in, if any.
pub fn reply_from_packet(source: IpAddr, ttl: Option<u8>, packet: PacketEchoReply<'_>) -> (r: EchoReply)
    ensures
        r.source == source,
        r.ttl == ttl,
        r.sequence == packet.seq_cnt,
        r.identifier == packet.ident,
        r.payload@ == packet.payload@,
        r.payload_len == r.payload@.len(),
        r.size == r.payload_len,
{
    EchoReply {
        ttl,
        source,
        sequence: packet.seq_cnt,
        identifier: packet.ident,
        payload_len: packet.payload.len(),
        payload: slice_to_vec(packet.payload),
        size: packet.payload.len(),
    }
}

/// What an encoded request to `destination` is: an ICMPv6 echo request (type
/// 128) for an IPv6 destination and an ICMPv4 one (type 8) for an IPv4
/// destination, code 0, with the identifier and sequence number in network
/// order, the payload after the header, and a checksum that verifies.
pub proof fn lemma_request_encoding(destination: IpAddr, ident: u16, seq_cnt: u16, payload: Seq<u8>)
    ensures
        ({
            let m = echo_message(
                request_type(destination),
                request_code(destination),
                ident,
                seq_cnt,
                payload,
            );
            &&& m.len() == 8 + payload.len()
            &&& m[0] == (if destination is V6 {
                128u8
            } else {
                8u8
            })
            &&& m[1] == 0
            &&& ident == m[4] * 256 + m[5]
            &&& seq_cnt == m[6] * 256 + m[7]
            &&& m.skip(8) == payload
            &&& ones_complement_sum(m) == 0xffff
        }),
{
    lemma_echo_types();
    let t = request_type(destination);
    let c = request_code(destination);
    lemma_echo_message_layout(t, c, ident, seq_cnt, payload);
    lemma_echo_message_checksum_verifies(t, c, ident, seq_cnt, payload);
    let m = echo_message(t, c, ident, seq_cnt, payload);
    lemma_echo_reply_decoding(t, c, m);
}

/// What an ICMPv6 reply decodes to, on a raw and on a datagram socket alike:
/// any buffer of at least 8 bytes with type 129 and code 0 is a reply from
/// the given address, without TTL, with the identifier and sequence number of
/// bytes 4..8 and the payload after the header, whatever the checksum field
/// holds (the system checks ICMPv6 checksums, over a pseudo-header); no other
/// buffer is a reply.
pub proof fn lemma_ipv6_reply_decoding(addr: IpAddr, b: Seq<u8>)
    requires
        addr is V6,
    ensures
        raw_reply(addr, b) == dgram_reply(addr, b),
        raw_reply(addr, b) is Ok <==> (b.len() >= 8 && b[0] == 129 && b[1] == 0),
        raw_reply(addr, b) matches Ok(f) ==> {
            &&& f.0 is None
            &&& f.1 == addr
            &&& f.3 == b[4] * 256 + b[5]
            &&& f.2 == b[6] * 256 + b[7]
            &&& f.4 == b.skip(8)
        },
{
    lemma_echo_types();
    lemma_echo_reply_decoding(129, 0, b);
    if b.len() >= 8 {
        assert(b.skip(8) =~= b.subrange(8, b.len() as int));
    }
}

/// What an ICMPv4 reply on a datagram socket decodes to: any buffer of at
/// least 8 bytes with type 0 and code 0 is a reply from the given address,
/// without TTL, with the identifier and sequence number of bytes 4..8 and the
/// payload after the header; no other buffer is a reply.
pub proof fn lemma_ipv4_dgram_reply_decoding(addr: IpAddr, b: Seq<u8>)
    requires
        addr is V4,
    ensures
        dgram_reply(addr, b) is Ok <==> (b.len() >= 8 && b[0] == 0 && b[1] == 0),
        dgram_reply(addr, b) matches Ok(f) ==> {
            &&& f.0 is None
            &&& f.1 == addr
            &&& f.3 == b[4] * 256 + b[5]
            &&& f.2 == b[6] * 256 + b[7]
            &&& f.4 == b.skip(8)
        },
{
    lemma_echo_types();
    lemma_echo_reply_decoding(0, 0, b);
    if b.len() >= 8 {
        assert(b.skip(8) =~= b.subrange(8, b.len() as int));
    }
}

/// What a raw IPv4 socket's buffer decodes to: it is a reply exactly when it
/// holds a valid IPv4 header (version 4, header length `h` = 4 times the low
/// nibble of byte 0, at least 20 and within the buffer, protocol 1) followed
/// by at least 8 bytes of ICMPv4 echo reply (type 0, code 0). Its TTL is the
/// header's byte 8 unchanged, its source is bytes 12..16, and identifier,
/// sequence number and payload come from the ICMP message after the header.
/// An echo request (type 8), such as the pinger's own, is never a reply.
pub proof fn lemma_ipv4_raw_reply_decoding(addr: IpAddr, b: Seq<u8>)
    requires
        addr is V4,
    ensures
        raw_reply(addr, b) is Ok <==> ({
            let h = 4 * (b[0] % 16);
            &&& b.len() >= 20
            &&& b[0] / 16 == 4
            &&& h >= 20
            &&& b.len() >= h + 8
            &&& b[9] == 1
            &&& b[h] == 0
            &&& b[h + 1] == 0
        }),
        raw_reply(addr, b) matches Ok(f) ==> ({
            let h = 4 * (b[0] % 16);
            &&& f.0 == Some(b[8])
            &&& f.1 matches IpAddr::V4(a) && a@ == b.subrange(12, 16)
            &&& f.3 == b[h + 4] * 256 + b[h + 5]
            &&& f.2 == b[h + 6] * 256 + b[h + 7]
            &&& f.4 == b.skip(h + 8)
        }),
{
    lemma_echo_types();
    lemma_ipv4_decoding(b);
    if let Ok((_, _, _, data)) = parse_ipv4(b) {
        let h = 4 * (b[0] % 16);
        lemma_echo_reply_decoding(0, 0, data);
        assert(data.len() == b.len() - h);
        if data.len() >= 8 {
            assert(data[0] == b[h] && data[1] == b[h + 1]);
            assert(data[4] == b[h + 4] && data[5] == b[h + 5]);
            assert(data[6] == b[h + 6] && data[7] == b[h + 7]);
            assert(data.subrange(8, data.len() as int) =~= b.skip(h + 8));
        }
    }
}

} // verus!
