use vstd::prelude::*;

use crate::addr::{ipv4_of, lemma_ipv4_of_view, IpAddr, Ipv4Addr};
use crate::error::Error;

verus! {

/// The smallest IPv4 header, and so the smallest IPv4 packet, in bytes.
pub const MINIMUM_PACKET_SIZE: usize = 20;

/// The transport protocols this library understands inside IPv4.
#[derive(Clone, Copy, Debug, PartialEq, Eq, Structural)]
pub enum IpV4Protocol {
    Icmp,
}

/// The protocol that an IPv4 protocol number names, if known.
pub open spec fn protocol_of(number: u8) -> Option<IpV4Protocol> {
    if number == 1 {
        Some(IpV4Protocol::Icmp)
    } else {
        None
    }
}

impl IpV4Protocol {
    /// Decodes an IPv4 protocol number.
    pub fn decode(data: u8) -> (r: Option<Self>)
        ensures
            r == protocol_of(data),
    {
        match data {
            1 => Some(IpV4Protocol::Icmp),
            _ => None,
        }
    }
}

/// The version field of the first header byte.
pub open spec fn ip_version(byte0: u8) -> nat {
    byte0 as nat / 16
}

/// The header length in bytes given by the first header byte.
pub open spec fn ip_header_size(byte0: u8) -> nat {
    4 * (byte0 as nat % 16)
}

/// The header fields the library reads from an IPv4 packet, and what follows
/// the header; or the error for a packet it refuses.
pub open spec fn parse_ipv4(b: Seq<u8>) -> Result<(IpV4Protocol, Ipv4Addr, u8, Seq<u8>), Error> {
    if b.len() < MINIMUM_PACKET_SIZE {
        Err(Error::TooSmallHeader)
    } else if ip_version(b[0]) != 4 {
        Err(Error::InvalidVersion)
    } else if ip_header_size(b[0]) < MINIMUM_PACKET_SIZE {
        Err(Error::InvalidHeaderSize)
    } else if b.len() < ip_header_size(b[0]) {
        Err(Error::InvalidHeaderSize)
    } else {
        match protocol_of(b[9]) {
            None => Err(Error::UnknownProtocol),
            Some(protocol) => Ok(
                (protocol, ipv4_of(b.subrange(12, 16)), b[8], b.skip(ip_header_size(b[0]) as int)),
            ),
        }
    }
}

/// The header fields of an IPv4 packet and its data.
#[derive(Debug)]
pub struct IpV4Packet<'a> {
    pub protocol: IpV4Protocol,
    pub source: IpAddr,
    pub ttl: u8,
    pub data: &'a [u8],
}

impl<'a> IpV4Packet<'a> {
    /// Decodes an IPv4 packet: checks its version, header length and protocol,
    /// and returns the header fields with the data after the header.
    pub fn decode(data: &'a [u8]) -> (res: Result<Self, Error>)
        ensures
            match parse_ipv4(data@) {
                Ok((protocol, source, ttl, rest)) => res matches Ok(p) && p.protocol == protocol
                    && p.source == IpAddr::V4(source) && p.ttl == ttl && p.data@ == rest,
                Err(e) => res matches Err(x) && x == e,
            },
    {
        if data.len() < MINIMUM_PACKET_SIZE {
            return Err(Error::TooSmallHeader);
        }
        let byte0 = data[0];
        let version = (byte0 & 0xf0) >> 4;
        let header_size = 4 * ((byte0 & 0x0f) as usize);
        assert((byte0 & 0xf0) >> 4 == byte0 / 16 && byte0 & 0x0f == byte0 % 16) by (bit_vector);

        if version != 4 {
            return Err(Error::InvalidVersion);
        }

        if header_size < MINIMUM_PACKET_SIZE {
            return Err(Error::InvalidHeaderSize);
        }

        if data.len() < header_size {
            return Err(Error::InvalidHeaderSize);
        }

        let protocol = match IpV4Protocol::decode(data[9]) {
            Some(protocol) => protocol,
            None => return Err(Error::UnknownProtocol),
        };

        let source = Ipv4Addr::new(data[12], data[13], data[14], data[15]);
        assert(seq![data@[12], data@[13], data@[14], data@[15]] =~= data@.subrange(12, 16));
        let packet = IpV4Packet {
            protocol,
            source: IpAddr::V4(source),
            ttl: data[8],
            data: &data[header_size..data.len()],
        };
        assert(packet.data@ =~= data@.skip(header_size as int));
        assert(parse_ipv4(data@) == Ok::<(IpV4Protocol, Ipv4Addr, u8, Seq<u8>), Error>(
            (packet.protocol, source, packet.ttl, packet.data@),
        ));
        Ok(packet)
    }
}


/// What decoding an IPv4 packet gives, over all buffers. It succeeds exactly
/// when the buffer holds at least the 20-byte minimum header, the version
/// (high nibble of byte 0) is 4, the header length (4 times the low nibble)
/// is at least 20 and within the buffer, and the protocol (byte 9) is ICMP (1).
/// Then the TTL is byte 8 unchanged, the source address is bytes 12..16, and
/// the data is everything after the header.
pub proof fn lemma_ipv4_decoding(b: Seq<u8>)
    ensures
        parse_ipv4(b) is Ok <==> {
            &&& b.len() >= 20
            &&& b[0] / 16 == 4
            &&& 4 * (b[0] % 16) >= 20
            &&& b.len() >= 4 * (b[0] % 16)
            &&& b[9] == 1
        },
        b.len() < 20 ==> parse_ipv4(b) == Err::<(IpV4Protocol, Ipv4Addr, u8, Seq<u8>), Error>(
            Error::TooSmallHeader,
        ),
        parse_ipv4(b) matches Ok((protocol, source, ttl, data)) ==> {
            &&& protocol == IpV4Protocol::Icmp
            &&& ttl == b[8]
            &&& source@ == b.subrange(12, 16)
            &&& data == b.skip(4 * (b[0] % 16))
        },
{
    if b.len() >= 20 {
        lemma_ipv4_of_view(b.subrange(12, 16));
    }
}

} // verus!
