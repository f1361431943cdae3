//! IP addresses as plain values: the library decides on them and never opens
//! a socket, so it carries its own address types.
use vstd::prelude::*;

verus! {

/// An IPv4 address, as its four octets in network order.
#[derive(Clone, Copy, Debug, PartialEq, Eq, Structural, Hash)]
pub struct Ipv4Addr {
    o0: u8,
    o1: u8,
    o2: u8,
    o3: u8,
}

impl View for Ipv4Addr {
    type V = Seq<u8>;

    closed spec fn view(&self) -> Seq<u8> {
        seq![self.o0, self.o1, self.o2, self.o3]
    }
}

/// The IPv4 address with the octets `o`, for a sequence of four.
pub closed spec fn ipv4_of(o: Seq<u8>) -> Ipv4Addr {
    Ipv4Addr { o0: o[0], o1: o[1], o2: o[2], o3: o[3] }
}

/// The IPv4 address built from four octets has those octets.
pub proof fn lemma_ipv4_of_view(s: Seq<u8>)
    requires
        s.len() == 4,
    ensures
        ipv4_of(s)@ == s,
{
    assert(ipv4_of(s)@ =~= s);
}

impl Ipv4Addr {
    /// The address `a.b.c.d`.
    pub fn new(a: u8, b: u8, c: u8, d: u8) -> (r: Self)
        ensures
            r == ipv4_of(seq![a, b, c, d]),
            r@ == seq![a, b, c, d],
    {
        Ipv4Addr { o0: a, o1: b, o2: c, o3: d }
    }

    /// The four octets of the address.
    pub fn octets(&self) -> (r: [u8; 4])
        ensures
            r@ == self@,
    {
        [self.o0, self.o1, self.o2, self.o3]
    }
}

/// An IPv6 address, as its eight 16-bit segments in network order.
#[derive(Clone, Copy, Debug, PartialEq, Eq, Structural, Hash)]
pub struct Ipv6Addr {
    s0: u16,
    s1: u16,
    s2: u16,
    s3: u16,
    s4: u16,
    s5: u16,
    s6: u16,
    s7: u16,
}

impl View for Ipv6Addr {
    type V = Seq<u16>;

    closed spec fn view(&self) -> Seq<u16> {
        seq![self.s0, self.s1, self.s2, self.s3, self.s4, self.s5, self.s6, self.s7]
    }
}

/// The IPv6 address with the segments `s`, for a sequence of eight.
pub closed spec fn ipv6_of(s: Seq<u16>) -> Ipv6Addr {
    Ipv6Addr { s0: s[0], s1: s[1], s2: s[2], s3: s[3], s4: s[4], s5: s[5], s6: s[6], s7: s[7] }
}

/// The IPv6 address built from eight segments has those segments.
pub proof fn lemma_ipv6_of_view(s: Seq<u16>)
    requires
        s.len() == 8,
    ensures
        ipv6_of(s)@ == s,
{
    assert(ipv6_of(s)@ =~= s);
}

impl Ipv6Addr {
    /// The address with segments `a:b:c:d:e:f:g:h`.
    pub fn new(a: u16, b: u16, c: u16, d: u16, e: u16, f: u16, g: u16, h: u16) -> (r: Self)
        ensures
            r == ipv6_of(seq![a, b, c, d, e, f, g, h]),
            r@ == seq![a, b, c, d, e, f, g, h],
    {
        Ipv6Addr { s0: a, s1: b, s2: c, s3: d, s4: e, s5: f, s6: g, s7: h }
    }

    /// The eight segments of the address.
    pub fn segments(&self) -> (r: [u16; 8])
        ensures
            r@ == self@,
    {
        [self.s0, self.s1, self.s2, self.s3, self.s4, self.s5, self.s6, self.s7]
    }
}

/// An IPv4 or IPv6 address.
#[derive(Clone, Copy, Debug, PartialEq, Eq, Structural, Hash)]
pub enum IpAddr {
    V4(Ipv4Addr),
    V6(Ipv6Addr),
}

impl IpAddr {
    /// Whether this is an IPv6 address.
    pub fn is_ipv6(&self) -> (r: bool)
        ensures
            r == self is V6,
    {
        match self {
            IpAddr::V4(_) => false,
            IpAddr::V6(_) => true,
        }
    }
}

} // verus!
