use vstd::prelude::*;
use vstd::string::*;

verus! {

/// An I/O error reported by the operating system; the library only carries it.
#[verifier::external_type_specification]
#[verifier::external_body]
pub struct ExIoError(std::io::Error);

pub type Result<T> = core::result::Result<T, Error>;

/// An error resulting from a ping option-setting or send/receive operation.
#[derive(Debug)]
pub enum Error {
    Io(std::io::Error),
    IncorrectBufferSize,
    NotIpv4Packet,
    NotIcmpPacket,
    NotIcmpv6Packet,
    PayloadTooShort { got: usize, want: usize },
    IOError(String),
    NotEchoReply,
    NotV6EchoReply,
    Timeout,
    OtherICMP,
    InvalidSize,
    InvalidPacket,
    TooSmallHeader,
    InvalidHeaderSize,
    InvalidVersion,
    UnknownProtocol,
    Unimplemented,
    UnsupportedSocketType,
}

impl From<std::io::Error> for Error {
    fn from(error: std::io::Error) -> (res: Self) {
        Self::Io(error)
    }
}

impl vstd::std_specs::convert::FromSpecImpl<std::io::Error> for Error {
    open spec fn obeys_from_spec() -> bool {
        true
    }

    open spec fn from_spec(v: std::io::Error) -> Self {
        Error::Io(v)
    }
}


/// The character of a decimal digit.
pub open spec fn digit_char(d: nat) -> char {
    (48 + d) as char
}

/// The decimal representation of `n`, most significant digit first, as `Display` writes it.
pub open spec fn decimal(n: nat) -> Seq<char>
    decreases n,
{
    if n < 10 {
        seq![digit_char(n)]
    } else {
        decimal(n / 10).push(digit_char(n % 10))
    }
}

/// The number that a string of decimal digits denotes.
pub open spec fn decimal_value(s: Seq<char>) -> nat
    decreases s.len(),
{
    if s.len() == 0 {
        0
    } else {
        decimal_value(s.drop_last()) * 10 + (s.last() as nat - 48) as nat
    }
}

/// The decimal representation of `n` is made of digits, has no leading zero
/// (but for zero itself), and denotes `n`.
pub proof fn lemma_decimal_denotes(n: nat)
    ensures
        decimal(n).len() >= 1,
        forall|i: int| 0 <= i < decimal(n).len() ==> '0' <= #[trigger] decimal(n)[i] <= '9',
        decimal(n)[0] == '0' ==> n == 0,
        decimal_value(decimal(n)) == n,
    decreases n,
{
    if n >= 10 {
        lemma_decimal_denotes(n / 10);
        let d = decimal(n);
        assert(d.drop_last() =~= decimal(n / 10));
        assert(d[0] == decimal(n / 10)[0]);
        assert(d.last() == digit_char(n % 10));
        assert(digit_char(n % 10) as nat == 48 + n % 10);
        assert(decimal_value(d) == decimal_value(decimal(n / 10)) * 10 + n % 10);
        assert((n / 10) * 10 + n % 10 == n);
    } else {
        let d = decimal(n);
        assert(d.drop_last() =~= Seq::<char>::empty());
        assert(digit_char(n) as nat == 48 + n);
        assert(decimal_value(d) == decimal_value(d.drop_last()) * 10 + n);
    }
}

/// The decimal representation of a `usize`.
pub open spec fn decimal_of(n: usize) -> Seq<char> {
    decimal(n as nat)
}

fn digit_str(d: usize) -> (s: &'static str)
    requires
        d < 10,
    ensures
        s@ == seq![digit_char(d as nat)],
{
    proof {
        reveal_strlit("0");
        reveal_strlit("1");
        reveal_strlit("2");
        reveal_strlit("3");
        reveal_strlit("4");
        reveal_strlit("5");
        reveal_strlit("6");
        reveal_strlit("7");
        reveal_strlit("8");
        reveal_strlit("9");
    }
    match d {
        0 => "0",
        1 => "1",
        2 => "2",
        3 => "3",
        4 => "4",
        5 => "5",
        6 => "6",
        7 => "7",
        8 => "8",
        _ => "9",
    }
}

/// Writes `n` in decimal.
pub fn decimal_string(n: usize) -> (s: String)
    ensures
        s@ == decimal_of(n),
    decreases n,
{
    if n < 10 {
        digit_str(n).to_owned()
    } else {
        let mut s = decimal_string(n / 10);
        s.append(digit_str(n % 10));
        s
    }
}

/// The text that describes an error, for every variant but `Io`, whose text
/// includes what the operating system reports.
pub open spec fn description(e: &Error) -> Seq<char> {
    match e {
        Error::Io(_) => "io error: "@,
        Error::PayloadTooShort { got, want } => "payload too short: got "@ + decimal_of(*got)
            + " bytes, want "@ + decimal_of(*want),
        Error::IOError(text) => "io error: "@ + text@,
        Error::IncorrectBufferSize => "incorrect buffer size"@,
        Error::NotIpv4Packet => "not an IPv4 packet"@,
        Error::NotIcmpPacket => "not an ICMP packet"@,
        Error::NotIcmpv6Packet => "not an ICMPv6 packet"@,
        Error::NotEchoReply => "not an ICMP echo reply"@,
        Error::NotV6EchoReply => "not an ICMPv6 echo reply"@,
        Error::Timeout => "ping timed out"@,
        Error::OtherICMP => "received a non-echo ICMP packet"@,
        Error::InvalidSize => "invalid packet size"@,
        Error::InvalidPacket => "invalid packet"@,
        Error::TooSmallHeader => "packet header is too small"@,
        Error::InvalidHeaderSize => "invalid IP header size"@,
        Error::InvalidVersion => "invalid IP version"@,
        Error::UnknownProtocol => "unknown IP protocol"@,
        Error::Unimplemented => "operation is not implemented"@,
        Error::UnsupportedSocketType => "unsupported socket type"@,
    }
}

impl Error {
    /// The human-readable description of this error.
    pub fn to_string(&self) -> (res: String)
        ensures
            match self {
                Error::Io(err) => exists|t: String|
                    to_string_from_display_ensures::<std::io::Error>(err, t) && res@ == "io error: "@
                        + t@,
                _ => res@ == description(self),
            },
            res@.len() > 0,
    {
        proof {
            reveal_strlit("io error: ");
            reveal_strlit("payload too short: got ");
            reveal_strlit(" bytes, want ");
            reveal_strlit("incorrect buffer size");
            reveal_strlit("not an IPv4 packet");
            reveal_strlit("not an ICMP packet");
            reveal_strlit("not an ICMPv6 packet");
            reveal_strlit("not an ICMP echo reply");
            reveal_strlit("not an ICMPv6 echo reply");
            reveal_strlit("ping timed out");
            reveal_strlit("received a non-echo ICMP packet");
            reveal_strlit("invalid packet size");
            reveal_strlit("invalid packet");
            reveal_strlit("packet header is too small");
            reveal_strlit("invalid IP header size");
            reveal_strlit("invalid IP version");
            reveal_strlit("unknown IP protocol");
            reveal_strlit("operation is not implemented");
            reveal_strlit("unsupported socket type");
        }
        match self {
            Error::Io(error) => {
                let text = error.to_string();
                let mut res = "io error: ".to_owned();
                res.append(text.as_str());
                res
            },
            Error::PayloadTooShort { got, want } => {
                let mut res = "payload too short: got ".to_owned();
                res.append(decimal_string(*got).as_str());
                res.append(" bytes, want ");
                res.append(decimal_string(*want).as_str());
                res
            },
            Error::IOError(error) => {
                let mut res = "io error: ".to_owned();
                res.append(error.as_str());
                res
            },
            Error::IncorrectBufferSize => "incorrect buffer size".to_owned(),
            Error::NotIpv4Packet => "not an IPv4 packet".to_owned(),
            Error::NotIcmpPacket => "not an ICMP packet".to_owned(),
            Error::NotIcmpv6Packet => "not an ICMPv6 packet".to_owned(),
            Error::NotEchoReply => "not an ICMP echo reply".to_owned(),
            Error::NotV6EchoReply => "not an ICMPv6 echo reply".to_owned(),
            Error::Timeout => "ping timed out".to_owned(),
            Error::OtherICMP => "received a non-echo ICMP packet".to_owned(),
            Error::InvalidSize => "invalid packet size".to_owned(),
            Error::InvalidPacket => "invalid packet".to_owned(),
            Error::TooSmallHeader => "packet header is too small".to_owned(),
            Error::InvalidHeaderSize => "invalid IP header size".to_owned(),
            Error::InvalidVersion => "invalid IP version".to_owned(),
            Error::UnknownProtocol => "unknown IP protocol".to_owned(),
            Error::Unimplemented => "operation is not implemented".to_owned(),
            Error::UnsupportedSocketType => "unsupported socket type".to_owned(),
        }
    }

    /// The underlying I/O error, if this error wraps one.
    pub fn source(&self) -> (res: Option<&std::io::Error>)
        ensures
            match self {
                Error::Io(e) => res == Some(e),
                _ => res is None,
            },
    {
        match self {
            Error::Io(error) => Some(error),
            _ => None,
        }
    }
}

} // verus!
