//! ICMP echo ("ping") messages, verified: encoding requests with their
//! Internet checksum, decoding IPv4 headers and echo replies, and the
//! decisions a pinger makes on what it receives.
pub mod addr;
pub mod error;
pub mod icmp;
pub mod packet;
pub mod ping;

pub use addr::{IpAddr, Ipv4Addr, Ipv6Addr};
pub use error::{Error, Result};
pub use icmp::{EchoReply, EchoRequest};
pub use ping::SocketType;
