//! Layered header decoding: Ethernet, then IPv4, then TCP or UDP.
//!
//! Each stage validates the minimum length for its fixed header and checks
//! that the previous layer declared it (EtherType IPv4, then the IP protocol
//! number) before interpreting any field. A stage that cannot decode fails
//! closed, and callers treat that as "insufficient information to classify".
//!
//! The spec functions below are the mathematical model of the wire format;
//! each executable decoder is proved to return exactly what they describe.

use vstd::prelude::*;

use crate::frame::be16;
use crate::frame::be32;
use crate::frame::read_be16;
use crate::frame::read_be32;
use crate::frame::read_u8;

verus! {

/// Length of an Ethernet header.
pub const ETH_HEADER_LEN: usize = 14;

/// EtherType that declares an IPv4 payload.
pub const ETHERTYPE_IPV4: u16 = 0x0800;

/// IP protocol number of TCP.
pub const IP_PROTO_TCP: u8 = 6;

/// IP protocol number of UDP.
pub const IP_PROTO_UDP: u8 = 17;

/// Shortest frame that can carry an Ethernet, IPv4 and TCP header stack.
pub const MIN_TCP_FRAME_LEN: usize = 54;

/// The Ethernet header is present and declares an IPv4 payload.
pub open spec fn spec_eth_is_ipv4(s: Seq<u8>) -> bool {
    s.len() >= 14 && be16(s[12], s[13]) == 0x0800
}

/// The IPv4 header-length field (IHL), in 32-bit words: the low nibble of the
/// first IP header octet.
pub open spec fn spec_ip_ihl(s: Seq<u8>) -> int {
    s[14] as int % 16
}

/// Offset of the first octet past the IPv4 header (and all its options).
pub open spec fn spec_ip_header_end(s: Seq<u8>) -> int {
    14 + 4 * spec_ip_ihl(s)
}

/// The frame holds a complete IPv4 header behind an Ethernet header that
/// declares it.
pub open spec fn spec_ipv4_ok(s: Seq<u8>) -> bool {
    &&& spec_eth_is_ipv4(s)
    &&& s.len() >= 34
    &&& spec_ip_ihl(s) >= 5
    &&& s.len() >= spec_ip_header_end(s)
}

/// The IP protocol field: which transport header follows.
pub open spec fn spec_ip_protocol(s: Seq<u8>) -> u8 {
    s[23]
}

/// The IPv4 source address, as the big-endian value of its four octets.
pub open spec fn spec_saddr(s: Seq<u8>) -> u32 {
    be32(s[26], s[27], s[28], s[29])
}

/// The IPv4 destination address, as the big-endian value of its four octets.
pub open spec fn spec_daddr(s: Seq<u8>) -> u32 {
    be32(s[30], s[31], s[32], s[33])
}

/// The frame holds a complete fixed TCP header declared by the IP layer.
pub open spec fn spec_tcp_ok(s: Seq<u8>) -> bool {
    &&& spec_ipv4_ok(s)
    &&& spec_ip_protocol(s) == 6
    &&& s.len() >= spec_ip_header_end(s) + 20
}

/// The frame holds a complete UDP header declared by the IP layer.
pub open spec fn spec_udp_ok(s: Seq<u8>) -> bool {
    &&& spec_ipv4_ok(s)
    &&& spec_ip_protocol(s) == 17
    &&& s.len() >= spec_ip_header_end(s) + 8
}

/// The frame holds a complete TCP or UDP header.
pub open spec fn spec_transport_ok(s: Seq<u8>) -> bool {
    spec_tcp_ok(s) || spec_udp_ok(s)
}

/// The source transport port (same offset for TCP and UDP).
pub open spec fn spec_sport(s: Seq<u8>) -> u16 {
    be16(s[spec_ip_header_end(s)], s[spec_ip_header_end(s) + 1])
}

/// The destination transport port (same offset for TCP and UDP).
pub open spec fn spec_dport(s: Seq<u8>) -> u16 {
    be16(s[spec_ip_header_end(s) + 2], s[spec_ip_header_end(s) + 3])
}

/// The TCP data-offset field, in 32-bit words: the high nibble of the
/// thirteenth TCP header octet.
pub open spec fn spec_tcp_doff(s: Seq<u8>) -> int {
    s[spec_ip_header_end(s) + 12] as int / 16
}

/// The TCP frame also has a consistent data offset, so the start of its
/// payload lies within the frame.
pub open spec fn spec_tcp_payload_ok(s: Seq<u8>) -> bool {
    &&& spec_tcp_ok(s)
    &&& spec_tcp_doff(s) >= 5
    &&& s.len() >= spec_ip_header_end(s) + 4 * spec_tcp_doff(s)
}

/// Offset of the first TCP payload octet.
pub open spec fn spec_tcp_payload_off(s: Seq<u8>) -> int {
    spec_ip_header_end(s) + 4 * spec_tcp_doff(s)
}

/// The TCP payload: everything from the payload offset to the frame's end.
pub open spec fn spec_tcp_payload(s: Seq<u8>) -> Seq<u8> {
    s.subrange(spec_tcp_payload_off(s), s.len() as int)
}

/// The fields a policy reads from a decoded IPv4 header.
#[derive(Clone, Copy, PartialEq, Eq, Structural, Debug)]
pub struct Ipv4Header {
    /// Source address, big-endian value of the four address octets.
    pub saddr: u32,
    /// Destination address, big-endian value of the four address octets.
    pub daddr: u32,
    /// IP protocol number of the transport header that follows.
    pub protocol: u8,
    /// Offset of the first octet past the IP header and its options.
    pub header_end: usize,
}

/// Which transport header a frame carries.
#[derive(Clone, Copy, PartialEq, Eq, Structural, Debug)]
pub enum TransportKind {
    /// The frame carries a TCP header.
    Tcp,
    /// The frame carries a UDP header.
    Udp,
}

/// The fields a policy reads from a decoded transport header.
#[derive(Clone, Copy, PartialEq, Eq, Structural, Debug)]
pub struct TransportHeader {
    /// TCP or UDP, so callers can match without unchecked casts.
    pub kind: TransportKind,
    /// Source port.
    pub sport: u16,
    /// Destination port.
    pub dport: u16,
}

/// Decodes the Ethernet and IPv4 layers, failing closed on a truncated
/// header, a non-IPv4 EtherType, or an IHL that is too small or runs past
/// the frame.
pub fn decode_ipv4(frame: &[u8]) -> (r: Option<Ipv4Header>)
    ensures
        r is Some <==> spec_ipv4_ok(frame@),
        r is Some ==> {
            let h = r.unwrap();
            &&& h.saddr == spec_saddr(frame@)
            &&& h.daddr == spec_daddr(frame@)
            &&& h.protocol == spec_ip_protocol(frame@)
            &&& h.header_end == spec_ip_header_end(frame@)
        },
{
    let ethertype = match read_be16(frame, 12) {
        Some(v) => v,
        None => {
            return None;
        },
    };
    if ethertype != ETHERTYPE_IPV4 {
        return None;
    }
    let first = match read_u8(frame, 14) {
        Some(v) => v,
        None => {
            return None;
        },
    };
    let ihl = (first % 16) as usize;
    if ihl < 5 {
        return None;
    }
    let header_end = ETH_HEADER_LEN + 4 * ihl;
    if frame.len() < header_end {
        return None;
    }
    let protocol = match read_u8(frame, 23) {
        Some(v) => v,
        None => {
            return None;
        },
    };
    let saddr = match read_be32(frame, 26) {
        Some(v) => v,
        None => {
            return None;
        },
    };
    let daddr = match read_be32(frame, 30) {
        Some(v) => v,
        None => {
            return None;
        },
    };
    Some(Ipv4Header { saddr, daddr, protocol, header_end })
}

/// Decodes through the transport layer, failing closed unless the IP layer
/// declared TCP or UDP and the frame holds that complete fixed header.
pub fn decode_transport(frame: &[u8]) -> (r: Option<TransportHeader>)
    ensures
        r is Some <==> spec_transport_ok(frame@),
        r is Some ==> {
            let t = r.unwrap();
            &&& (t.kind == TransportKind::Tcp <==> spec_tcp_ok(frame@))
            &&& (t.kind == TransportKind::Udp <==> spec_udp_ok(frame@))
            &&& t.sport == spec_sport(frame@)
            &&& t.dport == spec_dport(frame@)
        },
{
    let ip = match decode_ipv4(frame) {
        Some(h) => h,
        None => {
            return None;
        },
    };
    let kind: TransportKind;
    if ip.protocol == IP_PROTO_TCP {
        if frame.len() < ip.header_end + 20 {
            return None;
        }
        kind = TransportKind::Tcp;
    } else if ip.protocol == IP_PROTO_UDP {
        if frame.len() < ip.header_end + 8 {
            return None;
        }
        kind = TransportKind::Udp;
    } else {
        return None;
    }
    let sport = match read_be16(frame, ip.header_end) {
        Some(v) => v,
        None => {
            return None;
        },
    };
    let dport = match read_be16(frame, ip.header_end + 2) {
        Some(v) => v,
        None => {
            return None;
        },
    };
    Some(TransportHeader { kind, sport, dport })
}

/// Locates the TCP payload, failing closed unless the frame decodes as TCP
/// and its data offset is consistent with the frame length. Returns the
/// payload's offset into the frame and its length; together they reach
/// exactly the frame's end.
pub fn tcp_payload_bounds(frame: &[u8]) -> (r: Option<(usize, usize)>)
    ensures
        r is Some <==> spec_tcp_payload_ok(frame@),
        r is Some ==> {
            let (off, len) = r.unwrap();
            &&& off == spec_tcp_payload_off(frame@)
            &&& off + len == frame@.len()
        },
{
    let ip = match decode_ipv4(frame) {
        Some(h) => h,
        None => {
            return None;
        },
    };
    if ip.protocol != IP_PROTO_TCP {
        return None;
    }
    if frame.len() < ip.header_end + 20 {
        return None;
    }
    let doff_octet = match read_u8(frame, ip.header_end + 12) {
        Some(v) => v,
        None => {
            return None;
        },
    };
    let doff = (doff_octet / 16) as usize;
    if doff < 5 {
        return None;
    }
    let payload_off = ip.header_end + 4 * doff;
    if frame.len() < payload_off {
        return None;
    }
    Some((payload_off, frame.len() - payload_off))
}

} // verus!
