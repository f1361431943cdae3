//! The decisions of a ping: what payload a request carries, how a received
//! buffer is decoded for the socket in use, and which replies answer the
//! request. Sockets, clocks and waiting stay with the caller.
use vstd::prelude::*;

use crate::addr::IpAddr;
use crate::error::{Error, Result};
use crate::icmp::{
    dgram_reply, lemma_ipv4_dgram_reply_decoding, lemma_ipv4_raw_reply_decoding,
    lemma_ipv6_reply_decoding, raw_reply, reply_code, reply_type, EchoReply, ReplyFields,
};
use crate::packet::icmp::{echo_message, hi_byte, lo_byte, lemma_echo_message_parses};
use crate::packet::ipv4::{parse_ipv4, IpV4Protocol};
use crate::addr::Ipv4Addr;

verus! {

/// The payload size of a request when none is set.
pub const DEFAULT_PAYLOAD_SIZE: usize = 56;

/// The number of leading payload bytes that identify a request.
pub const TOKEN_SIZE: usize = 8;

/// The kind of socket that carries the ICMP messages.
#[derive(Clone, Copy, Debug, PartialEq, Eq, Structural, Hash)]
pub enum SocketType {
    /// A raw socket: needs privileges; IPv4 replies arrive with their IP header.
    Raw,
    /// A datagram socket: replies arrive without an IP header, and the system
    /// sets the identifier.
    Dgram,
}

/// The token at the front of a request payload: `tp`, then the identifier,
/// the sequence number and the low 16 bits of the size, each in network order.
pub open spec fn payload_token(ident: u16, seq_cnt: u16, size: usize) -> Seq<u8> {
    seq![
        0x74u8,
        0x70u8,
        hi_byte(ident),
        lo_byte(ident),
        hi_byte(seq_cnt),
        lo_byte(seq_cnt),
        ((size / 256) % 256) as u8,
        (size % 256) as u8,
    ]
}

/// The payload of a request: `size` bytes that start with as much of the
/// token as fits and are zero after it.
pub open spec fn request_payload_bytes(ident: u16, seq_cnt: u16, size: usize) -> Seq<u8> {
    Seq::new(
        size as nat,
        |i: int|
            if i < TOKEN_SIZE {
                payload_token(ident, seq_cnt, size)[i]
            } else {
                0u8
            },
    )
}

/// Builds the payload of a request.
pub fn request_payload(ident: u16, seq_cnt: u16, size: usize) -> (payload: Vec<u8>)
    ensures
        payload@ == request_payload_bytes(ident, seq_cnt, size),
{
    let mut payload = vec![0u8; size];
    let token: [u8; 8] = [
        0x74u8,
        0x70u8,
        (ident >> 8) as u8,
        ident as u8,
        (seq_cnt >> 8) as u8,
        seq_cnt as u8,
        (size >> 8) as u8,
        size as u8,
    ];
    proof {
        assert((ident >> 8) as u8 == hi_byte(ident) && ident as u8 == lo_byte(ident)) by (bit_vector);
        assert((seq_cnt >> 8) as u8 == hi_byte(seq_cnt) && seq_cnt as u8 == lo_byte(seq_cnt))
            by (bit_vector);
        assert((size >> 8) as u8 == ((size / 256) % 256) as u8 && size as u8 == (size % 256) as u8)
            by (bit_vector);
        assert(token@ =~= payload_token(ident, seq_cnt, size));
    }
    let len = if payload.len() < TOKEN_SIZE {
        payload.len()
    } else {
        TOKEN_SIZE
    };
    let mut i: usize = 0;
    while i < len
        invariant
            len <= TOKEN_SIZE,
            len <= size,
            len == size || len == TOKEN_SIZE,
            i <= len,
            token@ == payload_token(ident, seq_cnt, size),
            payload@.len() == size,
            forall|j: int| 0 <= j < i ==> payload@[j] == token@[j],
            forall|j: int| i <= j < size ==> payload@[j] == 0u8,
        decreases len - i,
    {
        payload.set(i, token[i]);
        i = i + 1;
    }
    assert(payload@ =~= request_payload_bytes(ident, seq_cnt, size));
    payload
}


/// Whether two byte strings are equal.
fn bytes_equal(a: &[u8], b: &[u8]) -> (r: bool)
    ensures
        r == (a@ == b@),
{
    if a.len() != b.len() {
        return false;
    }
    let mut i: usize = 0;
    while i < a.len()
        invariant
            a@.len() == b@.len(),
            i <= a@.len(),
            forall|j: int| 0 <= j < i ==> a@[j] == b@[j],
        decreases a@.len() - i,
    {
        if a[i] != b[i] {
            return false;
        }
        i = i + 1;
    }
    assert(a@ =~= b@);
    true
}

/// Whether a reply with the fields `f` answers the request with sequence
/// number `seq_cnt` and `payload`: the sequence number agrees; on a raw socket
/// the identifier agrees too (a datagram socket's system sets it); and the
/// payload is echoed, unless the request had none.
pub open spec fn answers_request(
    f: ReplyFields,
    seq_cnt: u16,
    payload: Seq<u8>,
    socket_type: SocketType,
    ident: u16,
) -> bool {
    &&& f.2 == seq_cnt
    &&& (socket_type == SocketType::Raw ==> f.3 == ident)
    &&& (payload.len() == 0 || f.4 == payload)
}

/// Whether `reply` answers the request with sequence number `seq_cnt` and
/// `payload`, sent with identifier `ident` over a socket of `socket_type`.
pub fn reply_matches(
    reply: &EchoReply,
    seq_cnt: u16,
    payload: &[u8],
    socket_type: SocketType,
    ident: u16,
) -> (r: bool)
    ensures
        r == answers_request(reply.fields(), seq_cnt, payload@, socket_type, ident),
{
    if reply.sequence != seq_cnt {
        return false;
    }

    if socket_type == SocketType::Raw && reply.identifier != ident {
        return false;
    }

    payload.len() == 0 || bytes_equal(reply.payload.as_slice(), payload)
}

/// The address a reply is attributed to: the one the socket reports, or else
/// the target.
pub open spec fn reply_source(target: IpAddr, source: Option<IpAddr>) -> IpAddr {
    match source {
        Some(a) => a,
        None => target,
    }
}

/// What a buffer received on a socket of `socket_type` for `target` decodes
/// to. A raw IPv4 socket delivers the IP header, whose source is taken; an
/// IPv6 or datagram socket delivers the ICMP message alone, from the reported
/// source.
pub open spec fn received_reply(
    socket_type: SocketType,
    target: IpAddr,
    source: Option<IpAddr>,
    b: Seq<u8>,
) -> core::result::Result<ReplyFields, Error> {
    match socket_type {
        SocketType::Raw => if target is V6 {
            raw_reply(reply_source(target, source), b)
        } else {
            raw_reply(target, b)
        },
        SocketType::Dgram => dgram_reply(reply_source(target, source), b),
    }
}

/// Decodes a buffer received on a socket of `socket_type` for `target`, from
/// the address the socket reports, if any.
pub fn decode_received(
    socket_type: SocketType,
    target: IpAddr,
    source: Option<IpAddr>,
    buf: &[u8],
) -> (res: Result<EchoReply>)
    ensures
        match received_reply(socket_type, target, source, buf@) {
            Ok(f) => res matches Ok(r) && r.fields() == f && r.lengths_agree(),
            Err(e) => res matches Err(x) && x == e,
        },
{
    let source = match source {
        Some(addr) => addr,
        None => target,
    };
    match socket_type {
        SocketType::Raw => if target.is_ipv6() {
            EchoReply::decode_raw(source, buf)
        } else {
            EchoReply::decode_raw(target, buf)
        },
        SocketType::Dgram => EchoReply::decode_dgram(source, buf),
    }
}

/// Decoding errors that mean the buffer held some other packet, which a
/// receiver passes over while it waits for its reply.
pub open spec fn is_foreign_packet(e: Error) -> bool {
    ||| e is InvalidPacket
    ||| e is NotEchoReply
    ||| e is NotV6EchoReply
    ||| e is OtherICMP
    ||| e is UnknownProtocol
}

/// What a receiver does with one received buffer.
#[derive(Debug)]
pub enum RecvStep {
    /// The buffer holds the reply: stop and return it.
    Accept(EchoReply),
    /// The buffer holds something else: wait for the next one.
    Skip,
    /// The buffer cannot be decoded: stop with this error.
    Fail(Error),
}

/// Decides on one buffer received while waiting for the reply to the request
/// with identifier `ident`, sequence number `seq_cnt` and `payload`.
pub fn handle_received(
    socket_type: SocketType,
    target: IpAddr,
    source: Option<IpAddr>,
    buf: &[u8],
    ident: u16,
    seq_cnt: u16,
    payload: &[u8],
) -> (step: RecvStep)
    ensures
        match received_reply(socket_type, target, source, buf@) {
            Ok(f) => if answers_request(f, seq_cnt, payload@, socket_type, ident) {
                step matches RecvStep::Accept(r) && r.fields() == f && r.lengths_agree()
            } else {
                step is Skip
            },
            Err(e) => if is_foreign_packet(e) {
                step is Skip
            } else {
                step matches RecvStep::Fail(x) && x == e
            },
        },
{
    match decode_received(socket_type, target, source, buf) {
        Ok(reply) => if reply_matches(&reply, seq_cnt, payload, socket_type, ident) {
            RecvStep::Accept(reply)
        } else {
            RecvStep::Skip
        },
        Err(Error::InvalidPacket)
        | Err(Error::NotEchoReply)
        | Err(Error::NotV6EchoReply)
        | Err(Error::OtherICMP)
        | Err(Error::UnknownProtocol) => RecvStep::Skip,
        Err(e) => RecvStep::Fail(e),
    }
}

/// Checks that a send wrote the whole packet.
pub fn check_sent(sent: usize, packet_len: usize) -> (res: Result<()>)
    ensures
        sent == packet_len <==> res is Ok,
        res matches Err(e) ==> e is InvalidSize,
{
    if sent != packet_len {
        return Err(Error::InvalidSize);
    }
    Ok(())
}

/// The default identifier of a pinger: the low 16 bits of the process id
/// plus a per-process counter, wrapping.
pub fn default_ident(pid: u32, next: u16) -> (ident: u16)
    ensures
        ident == (pid as nat + next as nat) % 0x10000,
{
    assert(pid as u16 == pid % 0x10000) by (bit_vector);
    let low = pid as u16;
    low.wrapping_add(next)
}


/// How waiting for a reply ended: a receive finished, with a reply or an
/// error, or the time ran out first.
#[derive(Debug)]
pub enum WaitOutcome {
    Received(Result<EchoReply>),
    TimedOut,
}

/// The result of a single ping once the wait for its reply is over: running
/// out of time is an error.
pub fn ping_outcome(outcome: WaitOutcome) -> (res: Result<EchoReply>)
    ensures
        match outcome {
            WaitOutcome::TimedOut => res matches Err(e) && e is Timeout,
            WaitOutcome::Received(r) => res == r,
        },
{
    match outcome {
        WaitOutcome::TimedOut => Err(Error::Timeout),
        WaitOutcome::Received(r) => r,
    }
}

/// What a collector of replies does next.
#[derive(Debug)]
pub enum CollectStep {
    /// Keep waiting, with the replies so far.
    Continue(Vec<EchoReply>),
    /// Stop, with this result.
    Finish(Result<Vec<EchoReply>>),
}

/// One step of collecting every reply to one request until the time runs
/// out: running out of time is no error and returns the replies seen so far;
/// a receive error ends the collection with that error; a reply is kept.
pub fn collect_step(replies: Vec<EchoReply>, outcome: WaitOutcome) -> (step: CollectStep)
    ensures
        match outcome {
            WaitOutcome::TimedOut => step matches CollectStep::Finish(Ok(v)) && v@ == replies@,
            WaitOutcome::Received(Err(e)) => step matches CollectStep::Finish(Err(x)) && x == e,
            WaitOutcome::Received(Ok(r)) => step matches CollectStep::Continue(v) && v@
                == replies@.push(r),
        },
{
    match outcome {
        WaitOutcome::TimedOut => CollectStep::Finish(Ok(replies)),
        WaitOutcome::Received(Err(e)) => CollectStep::Finish(Err(e)),
        WaitOutcome::Received(Ok(r)) => {
            let mut replies = replies;
            replies.push(r);
            CollectStep::Continue(replies)
        },
    }
}

/// The time left to wait, in nanoseconds, when `elapsed` nanoseconds of a
/// `timeout` have passed since the request was sent; none once it is over.
pub fn remaining_wait(elapsed: u128, timeout: u128) -> (rem: Option<u128>)
    ensures
        elapsed <= timeout ==> rem == Some((timeout - elapsed) as u128),
        elapsed > timeout ==> rem is None,
{
    if elapsed <= timeout {
        Some(timeout - elapsed)
    } else {
        None
    }
}

/// The settings of a pinger, apart from its target and socket.
#[derive(Clone, Copy, Debug)]
pub struct PingSettings {
    /// The identifier of the requests.
    pub ident: u16,
    /// The payload size of the requests, in bytes.
    pub size: usize,
    /// How long to wait for replies.
    pub timeout: core::time::Duration,
    /// The outgoing TTL or hop limit, once one was set.
    pub ttl: Option<u32>,
}

impl PingSettings {
    /// The settings of a new pinger: the given identifier and timeout, the
    /// default payload size, and the system's TTL.
    pub fn new(ident: u16, timeout: core::time::Duration) -> (r: Self)
        ensures
            r.ident == ident,
            r.size == DEFAULT_PAYLOAD_SIZE,
            r.timeout == timeout,
            r.ttl is None,
    {
        PingSettings { ident, size: DEFAULT_PAYLOAD_SIZE, timeout, ttl: None }
    }

    /// Sets the identifier.
    pub fn ident(&mut self, val: u16)
        ensures
            *final(self) == (PingSettings { ident: val, ..*old(self) }),
    {
        self.ident = val;
    }

    /// Sets the payload size.
    pub fn size(&mut self, size: usize)
        ensures
            *final(self) == (PingSettings { size: size, ..*old(self) }),
    {
        self.size = size;
    }

    /// Sets the timeout.
    pub fn timeout(&mut self, timeout: core::time::Duration)
        ensures
            *final(self) == (PingSettings { timeout: timeout, ..*old(self) }),
    {
        self.timeout = timeout;
    }

    /// Records a TTL that the socket has accepted.
    pub fn ttl(&mut self, ttl: u32)
        ensures
            *final(self) == (PingSettings { ttl: Some(ttl), ..*old(self) }),
    {
        self.ttl = Some(ttl);
    }
}

/// On a datagram socket, the echo of a request from `source` (the request's
/// sequence number and payload under the reply type of the source's family,
/// with whatever identifier the system gave it) decodes to those values and
/// is accepted as the reply.
pub proof fn lemma_dgram_echo_accepted(
    target: IpAddr,
    source: IpAddr,
    echoed_ident: u16,
    ident: u16,
    seq_cnt: u16,
    payload: Seq<u8>,
)
    ensures
        ({
            let b = echo_message(reply_type(source), reply_code(source), echoed_ident, seq_cnt, payload);
            let f = (None, source, seq_cnt, echoed_ident, payload);
            &&& received_reply(SocketType::Dgram, target, Some(source), b) == Ok::<ReplyFields, Error>(f)
            &&& answers_request(f, seq_cnt, payload, SocketType::Dgram, ident)
        }),
{
    lemma_echo_message_parses(reply_type(source), reply_code(source), echoed_ident, seq_cnt, payload);
}

/// On a raw IPv6 socket, the echo of a request (identifier, sequence number
/// and payload under the ICMPv6 reply type) is accepted as the reply, from the
/// reported source or else the target.
pub proof fn lemma_raw_ipv6_echo_accepted(
    target: IpAddr,
    source: Option<IpAddr>,
    ident: u16,
    seq_cnt: u16,
    payload: Seq<u8>,
)
    requires
        target is V6,
        reply_source(target, source) is V6,
    ensures
        ({
            let b = echo_message(reply_type(target), reply_code(target), ident, seq_cnt, payload);
            let f = (None, reply_source(target, source), seq_cnt, ident, payload);
            &&& received_reply(SocketType::Raw, target, source, b) == Ok::<ReplyFields, Error>(f)
            &&& answers_request(f, seq_cnt, payload, SocketType::Raw, ident)
        }),
{
    lemma_echo_message_parses(reply_type(target), reply_code(target), ident, seq_cnt, payload);
}

/// On a raw IPv4 socket, an IPv4 packet that carries the echo of a request
/// (identifier, sequence number and payload under the ICMPv4 reply type) is
/// accepted as the reply, with the packet's source and TTL.
pub proof fn lemma_raw_ipv4_echo_accepted(
    target: IpAddr,
    source: Option<IpAddr>,
    b: Seq<u8>,
    from: Ipv4Addr,
    ttl: u8,
    ident: u16,
    seq_cnt: u16,
    payload: Seq<u8>,
)
    requires
        target is V4,
        parse_ipv4(b) == Ok::<(IpV4Protocol, Ipv4Addr, u8, Seq<u8>), Error>(
            (
                IpV4Protocol::Icmp,
                from,
                ttl,
                echo_message(reply_type(target), reply_code(target), ident, seq_cnt, payload),
            ),
        ),
    ensures
        ({
            let f = (Some(ttl), IpAddr::V4(from), seq_cnt, ident, payload);
            &&& received_reply(SocketType::Raw, target, source, b) == Ok::<ReplyFields, Error>(f)
            &&& answers_request(f, seq_cnt, payload, SocketType::Raw, ident)
        }),
{
    lemma_echo_message_parses(reply_type(target), reply_code(target), ident, seq_cnt, payload);
}

/// Which replies answer a request, over all replies and requests: one with
/// another sequence number never does, whatever the payload; on a raw socket
/// one with another identifier never does; when the request had a payload,
/// one with another payload never does. A reply that agrees on all of these
/// does answer it.
pub proof fn lemma_answers_request(
    f: ReplyFields,
    seq_cnt: u16,
    payload: Seq<u8>,
    socket_type: SocketType,
    ident: u16,
)
    ensures
        f.2 != seq_cnt ==> !answers_request(f, seq_cnt, payload, socket_type, ident),
        socket_type == SocketType::Raw && f.3 != ident ==> !answers_request(
            f,
            seq_cnt,
            payload,
            socket_type,
            ident,
        ),
        payload.len() > 0 && f.4 != payload ==> !answers_request(
            f,
            seq_cnt,
            payload,
            socket_type,
            ident,
        ),
        f.2 == seq_cnt && (socket_type == SocketType::Raw ==> f.3 == ident) && (payload.len() == 0
            || f.4 == payload) ==> answers_request(f, seq_cnt, payload, socket_type, ident),
{
}

/// What a request payload is, byte by byte: `size` bytes; as far as they
/// reach, `t`, `p`, the identifier, the sequence number and the low 16 bits
/// of the size, each in network order; zero after the first eight.
pub proof fn lemma_request_payload_layout(ident: u16, seq_cnt: u16, size: usize)
    ensures
        ({
            let p = request_payload_bytes(ident, seq_cnt, size);
            &&& p.len() == size
            &&& size > 0 ==> p[0] == 0x74
            &&& size > 1 ==> p[1] == 0x70
            &&& size > 3 ==> p[2] * 256 + p[3] == ident
            &&& size > 5 ==> p[4] * 256 + p[5] == seq_cnt
            &&& size > 7 ==> p[6] * 256 + p[7] == size % 0x10000
            &&& size > 2 ==> p[2] == ident / 256
            &&& size > 4 ==> p[4] == seq_cnt / 256
            &&& size > 6 ==> p[6] == (size / 256) % 256
            &&& forall|i: int| 8 <= i < size ==> p[i] == 0
        }),
{
    assert(((size / 256) % 256) * 256 + size % 256 == size % 0x10000) by (nonlinear_arith);
}

/// Which decoding errors a receiver passes over: those that mean the buffer
/// held another packet (another ICMP type or code, a non-echo ICMP message,
/// another IP protocol). Malformed buffers (too short, a bad IP version or
/// header length) end the wait with their error.
pub proof fn lemma_foreign_packets()
    ensures
        is_foreign_packet(Error::InvalidPacket),
        is_foreign_packet(Error::NotEchoReply),
        is_foreign_packet(Error::NotV6EchoReply),
        is_foreign_packet(Error::OtherICMP),
        is_foreign_packet(Error::UnknownProtocol),
        !is_foreign_packet(Error::InvalidSize),
        !is_foreign_packet(Error::TooSmallHeader),
        !is_foreign_packet(Error::InvalidVersion),
        !is_foreign_packet(Error::InvalidHeaderSize),
        !is_foreign_packet(Error::Timeout),
{
}

/// Where a received reply comes from and what TTL it carries, for each kind
/// of socket: on a raw IPv4 socket both come from the IPv4 header (TTL byte 8
/// and source bytes 12..16), whatever address the socket reports; otherwise
/// the reply carries no TTL and comes from the reported address, or else from
/// the target.
pub proof fn lemma_received_reply_origin(
    socket_type: SocketType,
    target: IpAddr,
    source: Option<IpAddr>,
    b: Seq<u8>,
)
    requires
        socket_type == SocketType::Raw && target is V6 ==> reply_source(target, source) is V6,
    ensures
        socket_type == SocketType::Raw && target is V4 ==> (received_reply(
            socket_type,
            target,
            source,
            b,
        ) matches Ok(f) ==> f.0 == Some(b[8]) && (f.1 matches IpAddr::V4(a) && a@ == b.subrange(
            12,
            16,
        ))),
        !(socket_type == SocketType::Raw && target is V4) ==> (received_reply(
            socket_type,
            target,
            source,
            b,
        ) matches Ok(f) ==> f.0 is None && f.1 == reply_source(target, source)),
{
    if socket_type == SocketType::Raw && target is V4 {
        lemma_ipv4_raw_reply_decoding(target, b);
    } else {
        let src = reply_source(target, source);
        if src is V6 {
            lemma_ipv6_reply_decoding(src, b);
        } else {
            lemma_ipv4_dgram_reply_decoding(src, b);
        }
    }
}

} // verus!
