use vstd::prelude::*;
use vstd::slice::slice_to_vec;

use crate::error::Error;
use crate::packet::checksum::{
    accumulator_modulus, fold_carries, internet_checksum, internet_checksum_of_sum,
    lemma_checksummed_sum, lemma_fold_carries, lemma_fold_step_smaller, lemma_sum_words_set_second,
    ones_complement_sum, sum_words, word_at, word_count, word_sum,
};

verus! {

/// Size of the ICMP echo header in bytes.
pub const HEADER_SIZE: usize = 8;

/// ICMP for IPv4.
pub struct IcmpV4;

/// ICMP for IPv6.
pub struct IcmpV6;

/// The type and code values of echo messages in one version of ICMP.
pub trait Proto {
    const ECHO_REQUEST_TYPE: u8;
    const ECHO_REQUEST_CODE: u8;
    const ECHO_REPLY_TYPE: u8;
    const ECHO_REPLY_CODE: u8;
}

impl Proto for IcmpV4 {
    const ECHO_REQUEST_TYPE: u8 = 8;
    const ECHO_REQUEST_CODE: u8 = 0;
    const ECHO_REPLY_TYPE: u8 = 0;
    const ECHO_REPLY_CODE: u8 = 0;
}

impl Proto for IcmpV6 {
    const ECHO_REQUEST_TYPE: u8 = 128;
    const ECHO_REQUEST_CODE: u8 = 0;
    const ECHO_REPLY_TYPE: u8 = 129;
    const ECHO_REPLY_CODE: u8 = 0;
}

/// The echo types and codes of ICMPv4 (RFC 792) and ICMPv6 (RFC 4443).
pub proof fn lemma_echo_types()
    ensures
        IcmpV4::ECHO_REQUEST_TYPE == 8,
        IcmpV4::ECHO_REQUEST_CODE == 0,
        IcmpV4::ECHO_REPLY_TYPE == 0,
        IcmpV4::ECHO_REPLY_CODE == 0,
        IcmpV6::ECHO_REQUEST_TYPE == 128,
        IcmpV6::ECHO_REQUEST_CODE == 0,
        IcmpV6::ECHO_REPLY_TYPE == 129,
        IcmpV6::ECHO_REPLY_CODE == 0,
{
}

/// The high byte of a 16-bit value.
pub open spec fn hi_byte(v: u16) -> u8 {
    (v / 256) as u8
}

/// The low byte of a 16-bit value.
pub open spec fn lo_byte(v: u16) -> u8 {
    (v % 256) as u8
}

/// The 16-bit value of two bytes in network (big-endian) order.
pub open spec fn be16(hi: u8, lo: u8) -> u16 {
    (hi as nat * 256 + lo as nat) as u16
}

/// The eight header bytes of an echo message.
pub open spec fn echo_header(ty: u8, code: u8, checksum: u16, ident: u16, seq_cnt: u16) -> Seq<u8> {
    seq![
        ty,
        code,
        hi_byte(checksum),
        lo_byte(checksum),
        hi_byte(ident),
        lo_byte(ident),
        hi_byte(seq_cnt),
        lo_byte(seq_cnt),
    ]
}

/// A complete echo message: header and payload, with the checksum field set to
/// the Internet checksum of the message whose checksum field is zero.
pub open spec fn echo_message(ty: u8, code: u8, ident: u16, seq_cnt: u16, payload: Seq<u8>) -> Seq<u8> {
    let unsummed = echo_header(ty, code, 0, ident, seq_cnt) + payload;
    echo_header(ty, code, internet_checksum(unsummed), ident, seq_cnt) + payload
}

/// Computes the Internet checksum of `buffer` and stores it, in network order,
/// in bytes 2 and 3.
pub fn write_checksum(buffer: &mut [u8])
    requires
        old(buffer)@.len() >= 4,
    ensures
        final(buffer)@ == old(buffer)@.update(2, hi_byte(internet_checksum(old(buffer)@))).update(
            3,
            lo_byte(internet_checksum(old(buffer)@)),
        ),
{
    let len = buffer.len();
    proof {
        assert(old(buffer)@.subrange(0, len as int) =~= old(buffer)@);
    }
    write_checksum_prefix(buffer, len);
}

/// Computes the Internet checksum of the first `len` bytes of `buffer` and
/// stores it, in network order, in bytes 2 and 3.
fn write_checksum_prefix(buffer: &mut [u8], len: usize)
    requires
        4 <= len <= old(buffer)@.len(),
    ensures
        final(buffer)@ == old(buffer)@.update(
            2,
            hi_byte(internet_checksum(old(buffer)@.subrange(0, len as int))),
        ).update(3, lo_byte(internet_checksum(old(buffer)@.subrange(0, len as int)))),
{
    let ghost b = buffer@.subrange(0, len as int);
    let words = len / 2 + len % 2;
    assert(words == word_count(b));
    let mut sum: u32 = 0;
    let mut k: usize = 0;
    while k < words
        invariant
            words == word_count(b),
            b == buffer@.subrange(0, len as int),
            len <= buffer@.len(),
            k <= words,
            sum == sum_words(b, k as nat) % accumulator_modulus(),
        decreases words - k,
    {
        let i = 2 * k;
        let mut part: u16 = (buffer[i] as u16) * 256;
        if i + 1 < len {
            part = part + buffer[i + 1] as u16;
        }
        assert(part == word_at(b, k as int));
        let ghost before = sum;
        sum = sum.wrapping_add(part as u32);
        k = k + 1;
        assert(sum == sum_words(b, k as nat) % accumulator_modulus()) by {
            assert(sum_words(b, k as nat) == sum_words(b, (k - 1) as nat) + part);
            assert(sum == (before + part) % 0x1_0000_0000);
            assert((sum_words(b, (k - 1) as nat) % 0x1_0000_0000 + part) % 0x1_0000_0000
                == (sum_words(b, (k - 1) as nat) + part) % 0x1_0000_0000) by (nonlinear_arith);
        }
    }
    let ghost target = fold_carries(word_sum(b) % accumulator_modulus());
    while (sum >> 16) > 0
        invariant
            fold_carries(sum as nat) == target,
        decreases sum,
    {
        let ghost before = sum;
        assert(sum >> 16 == sum / 0x10000 && sum & 0xffff == sum % 0x10000) by (bit_vector);
        assert(sum / 0x10000 > 0 ==> sum >= 0x10000) by (nonlinear_arith);
        sum = (sum & 0xffff) + (sum >> 16);
        proof {
            lemma_fold_step_smaller(before as nat);
        }
    }
    assert(sum >> 16 == 0 ==> sum <= 0xffff) by (bit_vector);
    assert(sum <= 0xffff ==> (!sum) as u16 == (0xffff - sum) as u16) by (bit_vector);
    let sum = !sum as u16;
    assert(sum == internet_checksum(b));
    proof {
        lemma_byte_split(sum);
    }
    buffer[2] = (sum >> 8) as u8;
    buffer[3] = (sum & 0xff) as u8;
}

/// An ICMP echo request, as far as the message itself goes.
pub struct EchoRequest {
    pub ident: u16,
    pub seq_cnt: u16,
}

proof fn lemma_byte_split(v: u16)
    ensures
        (v >> 8) as u8 == hi_byte(v),
        (v & 0xff) as u8 == lo_byte(v),
        v as u8 == lo_byte(v),
        be16(hi_byte(v), lo_byte(v)) == v,
{
    assert((v >> 8) as u8 == (v / 256) as u8) by (bit_vector);
    assert((v & 0xff) as u8 == (v % 256) as u8) by (bit_vector);
    assert(v as u8 == (v % 256) as u8) by (bit_vector);
}

impl EchoRequest {
    /// Writes the echo request with `payload` into the front of `buffer` and
    /// returns a copy of the whole buffer.
    pub fn encode<P: Proto>(&self, buffer: &mut [u8], payload: &[u8]) -> (res: Result<Vec<u8>, Error>)
        requires
            payload@.len() + HEADER_SIZE <= usize::MAX,
        ensures
            match res {
                Ok(v) => {
                    &&& old(buffer)@.len() >= HEADER_SIZE + payload@.len()
                    &&& final(buffer)@ == echo_message(
                        P::ECHO_REQUEST_TYPE,
                        P::ECHO_REQUEST_CODE,
                        self.ident,
                        self.seq_cnt,
                        payload@,
                    ) + old(buffer)@.skip(HEADER_SIZE + payload@.len())
                    &&& v@ == final(buffer)@
                },
                Err(e) => {
                    &&& old(buffer)@.len() < HEADER_SIZE + payload@.len()
                    &&& e is InvalidSize
                    &&& final(buffer)@ == old(buffer)@
                },
            },
    {
        if buffer.len() < HEADER_SIZE + payload.len() {
            return Err(Error::InvalidSize);
        }
        let ghost tail = old(buffer)@.skip(HEADER_SIZE + payload@.len());
        proof {
            lemma_byte_split(self.ident);
            lemma_byte_split(self.seq_cnt);
        }

        buffer[0] = P::ECHO_REQUEST_TYPE;
        buffer[1] = P::ECHO_REQUEST_CODE;
        buffer[2] = 0;
        buffer[3] = 0;

        buffer[4] = (self.ident >> 8) as u8;
        buffer[5] = self.ident as u8;
        buffer[6] = (self.seq_cnt >> 8) as u8;
        buffer[7] = self.seq_cnt as u8;

        let n = payload.len();
        let mut i: usize = 0;
        while i < n
            invariant
                n == payload@.len(),
                buffer@.len() == old(buffer)@.len(),
                HEADER_SIZE + n <= buffer@.len(),
                HEADER_SIZE + n <= usize::MAX,
                i <= n,
                buffer@.subrange(0, HEADER_SIZE as int) == echo_header(
                    P::ECHO_REQUEST_TYPE,
                    P::ECHO_REQUEST_CODE,
                    0,
                    self.ident,
                    self.seq_cnt,
                ),
                buffer@.subrange(HEADER_SIZE as int, HEADER_SIZE + i) == payload@.subrange(0, i as int),
                buffer@.skip(HEADER_SIZE + n) == tail,
            decreases n - i,
        {
            buffer[HEADER_SIZE + i] = payload[i];
            i = i + 1;
            assert(buffer@.subrange(HEADER_SIZE as int, HEADER_SIZE + i) =~= payload@.subrange(
                0,
                i as int,
            ));
        }
        let ghost unsummed = echo_header(
            P::ECHO_REQUEST_TYPE,
            P::ECHO_REQUEST_CODE,
            0,
            self.ident,
            self.seq_cnt,
        ) + payload@;
        assert(buffer@ =~= unsummed + tail) by {
            assert(payload@.subrange(0, n as int) =~= payload@);
            assert(buffer@ =~= buffer@.subrange(0, HEADER_SIZE as int) + buffer@.subrange(
                HEADER_SIZE as int,
                HEADER_SIZE + n,
            ) + buffer@.skip(HEADER_SIZE + n));
        }
        assert(buffer@.subrange(0, HEADER_SIZE + n) =~= unsummed);
        write_checksum_prefix(buffer, HEADER_SIZE + n);
        assert(buffer@ =~= echo_message(
            P::ECHO_REQUEST_TYPE,
            P::ECHO_REQUEST_CODE,
            self.ident,
            self.seq_cnt,
            payload@,
        ) + tail);
        Ok(slice_to_vec(buffer))
    }
}


/// What an echo reply of the given type and code carries, or the error that
/// decoding it gives: too short for a header, or of another type or code.
pub open spec fn parse_echo_reply(ty: u8, code: u8, b: Seq<u8>) -> Result<(u16, u16, Seq<u8>), Error> {
    if b.len() < HEADER_SIZE {
        Err(Error::InvalidSize)
    } else if b[0] != ty || b[1] != code {
        Err(Error::InvalidPacket)
    } else {
        Ok((be16(b[4], b[5]), be16(b[6], b[7]), b.skip(HEADER_SIZE as int)))
    }
}

/// An ICMP echo reply, borrowing its payload from the decoded buffer.
pub struct EchoReply<'a> {
    pub ident: u16,
    pub seq_cnt: u16,
    pub payload: &'a [u8],
}

impl<'a> EchoReply<'a> {
    /// Decodes an echo reply of protocol `P` from the start of `buffer`; the
    /// payload is everything after the header.
    pub fn decode<P: Proto>(buffer: &'a [u8]) -> (res: Result<Self, Error>)
        ensures
            match parse_echo_reply(P::ECHO_REPLY_TYPE, P::ECHO_REPLY_CODE, buffer@) {
                Ok((ident, seq_cnt, payload)) => res matches Ok(r) && r.ident == ident && r.seq_cnt
                    == seq_cnt && r.payload@ == payload,
                Err(e) => res matches Err(x) && x == e,
            },
    {
        if buffer.len() < HEADER_SIZE {
            return Err(Error::InvalidSize);
        }
        let type_ = buffer[0];
        let code = buffer[1];
        if type_ != P::ECHO_REPLY_TYPE || code != P::ECHO_REPLY_CODE {
            return Err(Error::InvalidPacket);
        }

        let ident = (buffer[4] as u16) * 256 + (buffer[5] as u16);
        let seq_cnt = (buffer[6] as u16) * 256 + (buffer[7] as u16);

        let payload = &buffer[HEADER_SIZE..buffer.len()];

        Ok(EchoReply { ident, seq_cnt, payload })
    }
}

/// The bytes of an echo message: its length, its type and code, the
/// identifier and sequence number in network order, and the payload.
pub proof fn lemma_echo_message_layout(ty: u8, code: u8, ident: u16, seq_cnt: u16, payload: Seq<u8>)
    ensures
        ({
            let m = echo_message(ty, code, ident, seq_cnt, payload);
            &&& m.len() == HEADER_SIZE + payload.len()
            &&& m[0] == ty
            &&& m[1] == code
            &&& be16(m[4], m[5]) == ident
            &&& be16(m[6], m[7]) == seq_cnt
            &&& m[4] * 256 + m[5] == ident
            &&& m[6] * 256 + m[7] == seq_cnt
            &&& m.skip(HEADER_SIZE as int) == payload
        }),
{
    let m = echo_message(ty, code, ident, seq_cnt, payload);
    lemma_byte_split(ident);
    lemma_byte_split(seq_cnt);
    assert(m.skip(HEADER_SIZE as int) =~= payload);
}

/// Storing the checksum of a buffer whose checksum field is zero in that
/// field, as `write_checksum` does, makes the buffer verify: the
/// ones'-complement sum of its words is 0xffff. This holds for every length,
/// the 32-bit wrapping of long sums included.
pub proof fn lemma_written_checksum_verifies(b: Seq<u8>)
    requires
        b.len() >= 4,
        b[2] == 0,
        b[3] == 0,
    ensures
        ones_complement_sum(
            b.update(2, hi_byte(internet_checksum(b))).update(3, lo_byte(internet_checksum(b))),
        ) == 0xffff,
{
    let ck = internet_checksum(b);
    let m = b.update(2, hi_byte(ck)).update(3, lo_byte(ck));
    lemma_byte_split(ck);
    assert(word_count(m) == word_count(b));
    lemma_sum_words_set_second(b, hi_byte(ck), lo_byte(ck), word_count(b));
    assert((hi_byte(ck) as nat) * 256 + lo_byte(ck) as nat == ck);
    assert(word_sum(m) == word_sum(b) + ck);
    lemma_fold_carries(word_sum(b) % accumulator_modulus());
    assert(ck == internet_checksum_of_sum(word_sum(b)));
    lemma_checksummed_sum(word_sum(b));
}

/// Every echo message verifies: the ones'-complement sum of its words,
/// checksum field included, is 0xffff.
pub proof fn lemma_echo_message_checksum_verifies(
    ty: u8,
    code: u8,
    ident: u16,
    seq_cnt: u16,
    payload: Seq<u8>,
)
    ensures
        ones_complement_sum(echo_message(ty, code, ident, seq_cnt, payload)) == 0xffff,
{
    let z = echo_header(ty, code, 0, ident, seq_cnt) + payload;
    let ck = internet_checksum(z);
    lemma_byte_split(0);
    assert(echo_message(ty, code, ident, seq_cnt, payload) =~= z.update(2, hi_byte(ck)).update(
        3,
        lo_byte(ck),
    ));
    lemma_written_checksum_verifies(z);
}

/// A reply that echoes a request's identifier, sequence number and payload
/// under the reply type and code decodes to exactly those values.
pub proof fn lemma_echo_message_parses(ty: u8, code: u8, ident: u16, seq_cnt: u16, payload: Seq<u8>)
    ensures
        parse_echo_reply(ty, code, echo_message(ty, code, ident, seq_cnt, payload)) == Ok::<
            (u16, u16, Seq<u8>),
            Error,
        >((ident, seq_cnt, payload)),
{
    lemma_echo_message_layout(ty, code, ident, seq_cnt, payload);
}


/// What decoding an echo reply of type `ty` and code `code` gives, over all
/// buffers: a buffer shorter than the header is too short; a message of any
/// other type or code is refused; any other buffer gives the identifier and
/// sequence number in network order from bytes 4..8 and everything after the
/// header as payload, whatever the checksum field holds.
pub proof fn lemma_echo_reply_decoding(ty: u8, code: u8, b: Seq<u8>)
    ensures
        b.len() < 8 ==> parse_echo_reply(ty, code, b) == Err::<(u16, u16, Seq<u8>), Error>(
            Error::InvalidSize,
        ),
        b.len() >= 8 && (b[0] != ty || b[1] != code) ==> parse_echo_reply(ty, code, b) == Err::<
            (u16, u16, Seq<u8>),
            Error,
        >(Error::InvalidPacket),
        parse_echo_reply(ty, code, b) is Ok <==> (b.len() >= 8 && b[0] == ty && b[1] == code),
        parse_echo_reply(ty, code, b) matches Ok((ident, seq_cnt, payload)) ==> {
            &&& ident == b[4] * 256 + b[5]
            &&& seq_cnt == b[6] * 256 + b[7]
            &&& payload == b.subrange(8, b.len() as int)
        },
{
    if b.len() >= 8 {
        assert(b.skip(8) =~= b.subrange(8, b.len() as int));
    }
}

} // verus!
