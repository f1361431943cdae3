# tiny_ping

A small ICMP echo ("ping") library whose packet logic is verified with Verus.

- `src/` is the verified library:
  - `packet/checksum.rs`: the Internet checksum as a function of bytes, and
    the proof that a message carrying its checksum verifies;
  - `packet/icmp.rs`: ICMPv4/ICMPv6 echo request encoding and echo reply
    decoding;
  - `packet/ipv4.rs`: IPv4 header decoding;
  - `icmp.rs`: requests and replies by destination and socket kind;
  - `ping.rs`: the pinger's settings, the request payload, the decision taken
    on each received buffer (accept, skip, fail), and what a timeout means for
    a single ping (an error) and for collecting replies (the end);
  - `addr.rs`, `error.rs`: addresses and errors.
- `app/` is the asynchronous pinger around it: sockets (socket2), timeouts
  (tokio) and the loops, which ask the library what each buffer and each
  timeout means.
- `tests/` runs the library on concrete packets.

Raw sockets usually need root or capabilities; datagram sockets can work
without them on some systems.
