use vstd::prelude::*;
use pnet::packet::ethernet::EthernetPacket;
use pnet::packet::ipv4::Ipv4Packet;
use pnet::packet::udp::UdpPacket;
use pnet::packet::Packet;
use crate::bytes::be16;
use crate::error::DecodeError;

verus! {

/// Length of an Ethernet header in bytes.
pub const ETHERNET_HEADER_LEN: usize = 14;

/// Length of an IPv4 header without options in bytes.
pub const IPV4_MIN_HEADER_LEN: usize = 20;

/// Length of a UDP header in bytes.
pub const UDP_HEADER_LEN: usize = 8;

/// The Ethernet type that designates IPv4.
pub const ETHERTYPE_IPV4: u16 = 0x0800;

/// The IPv4 protocol number of UDP.
pub const IP_PROTOCOL_UDP: u8 = 17;

/// The type field of the Ethernet frame `s`.
pub open spec fn ether_type_of(s: Seq<u8>) -> int {
    be16(s, 12)
}

/// The header-length field of the IPv4 packet `s`, in 32-bit words.
pub open spec fn ihl_of(s: Seq<u8>) -> int {
    s[0] as int % 16
}

/// The protocol field of the IPv4 packet `s`.
pub open spec fn ip_protocol_of(s: Seq<u8>) -> int {
    s[9] as int
}

/// The total-length field of the IPv4 packet `s`.
pub open spec fn ip_total_len_of(s: Seq<u8>) -> int {
    be16(s, 2)
}

/// The payload of the IPv4 packet `s` as pnet slices it: it starts after the
/// header (at least 20 bytes) and holds `total length - header length` bytes,
/// cut at the end of `s`.
pub open spec fn pnet_ipv4_payload(s: Seq<u8>) -> Seq<u8> {
    let hl = ihl_of(s) * 4;
    let start = if hl > 20 { hl } else { 20 };
    let plen = if ip_total_len_of(s) > hl { ip_total_len_of(s) - hl } else { 0 };
    let end = if start + plen < s.len() { start + plen } else { s.len() as int };
    if s.len() <= start {
        Seq::empty()
    } else {
        s.subrange(start, end)
    }
}

/// The destination-port field of the UDP datagram `s`.
pub open spec fn udp_dst_of(s: Seq<u8>) -> int {
    be16(s, 2)
}

/// Relies on pnet's `EthernetPacket`: `new` accepts a buffer of at least 14 bytes,
/// `get_ethertype` reads the big-endian type at offset 12, `payload` is the rest
/// after byte 14.
#[verifier::external_body]
fn ethernet_fields(frame: &[u8]) -> (r: Option<(u16, Vec<u8>)>)
    ensures
        r.is_some() == (frame@.len() >= ETHERNET_HEADER_LEN),
        r.is_some() ==> r.unwrap().0 == ether_type_of(frame@) && r.unwrap().1@ == frame@.subrange(
            ETHERNET_HEADER_LEN as int,
            frame@.len() as int,
        ),
{
    match EthernetPacket::new(frame) {
        Some(p) => Some((p.get_ethertype().0, p.payload().to_vec())),
        None => None,
    }
}

/// Relies on pnet's `Ipv4Packet`: `new` accepts a buffer of at least 20 bytes,
/// `get_header_length` is the low nibble of byte 0, `get_next_level_protocol` is
/// byte 9, and `payload` is bounded by the header-length and total-length fields.
#[verifier::external_body]
fn ipv4_fields(packet: &[u8]) -> (r: Option<(u8, u8, Vec<u8>)>)
    ensures
        r.is_some() == (packet@.len() >= IPV4_MIN_HEADER_LEN),
        r.is_some() ==> r.unwrap().0 == ihl_of(packet@) && r.unwrap().1 == ip_protocol_of(packet@)
            && r.unwrap().2@ == pnet_ipv4_payload(packet@),
{
    match Ipv4Packet::new(packet) {
        Some(p) => Some((p.get_header_length(), p.get_next_level_protocol().0, p.payload().to_vec())),
        None => None,
    }
}

/// Relies on pnet's `UdpPacket`: `new` accepts a buffer of at least 8 bytes,
/// `get_destination` reads the big-endian port at offset 2, `payload` is the rest
/// after byte 8.
#[verifier::external_body]
fn udp_fields(segment: &[u8]) -> (r: Option<(u16, Vec<u8>)>)
    ensures
        r.is_some() == (segment@.len() >= UDP_HEADER_LEN),
        r.is_some() ==> r.unwrap().0 == udp_dst_of(segment@) && r.unwrap().1@ == segment@.subrange(
            UDP_HEADER_LEN as int,
            segment@.len() as int,
        ),
{
    match UdpPacket::new(segment) {
        Some(p) => Some((p.get_destination(), p.payload().to_vec())),
        None => None,
    }
}

/// What the link-layer stage gives for the frame `s`.
pub open spec fn link_result(s: Seq<u8>) -> Result<Seq<u8>, DecodeError> {
    if s.len() < ETHERNET_HEADER_LEN {
        Err(DecodeError::MalformedHeader)
    } else if ether_type_of(s) != ETHERTYPE_IPV4 {
        Err(DecodeError::UnexpectedLinkType(ether_type_of(s) as u16))
    } else {
        Ok(s.subrange(ETHERNET_HEADER_LEN as int, s.len() as int))
    }
}

/// Whether the IPv4 header of `s` is long enough and its length field consistent.
pub open spec fn ipv4_header_ok(s: Seq<u8>) -> bool {
    &&& s.len() >= IPV4_MIN_HEADER_LEN
    &&& ihl_of(s) * 4 >= IPV4_MIN_HEADER_LEN
    &&& ihl_of(s) * 4 <= s.len()
}

/// The payload of a well-formed IPv4 packet `s`: after its header, up to its
/// total length, cut at the end of `s`.
pub open spec fn ipv4_payload(s: Seq<u8>) -> Seq<u8> {
    let hl = ihl_of(s) * 4;
    let end = if ip_total_len_of(s) > hl { ip_total_len_of(s) } else { hl };
    s.subrange(hl, if end < s.len() { end } else { s.len() as int })
}

/// What the network-layer stage gives for the packet `s`.
pub open spec fn network_result(s: Seq<u8>) -> Result<Seq<u8>, DecodeError> {
    if !ipv4_header_ok(s) {
        Err(DecodeError::MalformedHeader)
    } else if ip_protocol_of(s) != IP_PROTOCOL_UDP {
        Err(DecodeError::UnexpectedNetworkProtocol(ip_protocol_of(s) as u8))
    } else {
        Ok(ipv4_payload(s))
    }
}

/// What the transport-layer stage gives for the datagram `s` when `port` is expected.
pub open spec fn transport_result(s: Seq<u8>, port: u16) -> Result<Seq<u8>, DecodeError> {
    if s.len() < UDP_HEADER_LEN {
        Err(DecodeError::MalformedHeader)
    } else if udp_dst_of(s) != port {
        Err(DecodeError::UnexpectedPort(udp_dst_of(s) as u16))
    } else {
        Ok(s.subrange(UDP_HEADER_LEN as int, s.len() as int))
    }
}

/// Validates an Ethernet frame and hands back its payload when it carries IPv4.
pub fn link_stage(frame: &[u8]) -> (r: Result<Vec<u8>, DecodeError>)
    ensures
        match r {
            Ok(v) => link_result(frame@) == Ok::<Seq<u8>, DecodeError>(v@),
            Err(e) => link_result(frame@) == Err::<Seq<u8>, DecodeError>(e),
        },
{
    match ethernet_fields(frame) {
        None => Err(DecodeError::MalformedHeader),
        Some((ether_type, payload)) => {
            if ether_type != ETHERTYPE_IPV4 {
                Err(DecodeError::UnexpectedLinkType(ether_type))
            } else {
                Ok(payload)
            }
        },
    }
}

/// Validates an IPv4 packet and hands back its payload when it carries UDP.
pub fn network_stage(packet: &[u8]) -> (r: Result<Vec<u8>, DecodeError>)
    ensures
        match r {
            Ok(v) => network_result(packet@) == Ok::<Seq<u8>, DecodeError>(v@),
            Err(e) => network_result(packet@) == Err::<Seq<u8>, DecodeError>(e),
        },
{
    match ipv4_fields(packet) {
        None => Err(DecodeError::MalformedHeader),
        Some((ihl, protocol, payload)) => {
            let header_len = (ihl as usize) * 4;
            if header_len < IPV4_MIN_HEADER_LEN || header_len > packet.len() {
                Err(DecodeError::MalformedHeader)
            } else if protocol != IP_PROTOCOL_UDP {
                Err(DecodeError::UnexpectedNetworkProtocol(protocol))
            } else {
                proof {
                    assert(payload@ =~= ipv4_payload(packet@));
                }
                Ok(payload)
            }
        },
    }
}

/// Validates a UDP datagram and hands back its payload when it is addressed to `port`.
pub fn transport_stage(segment: &[u8], port: u16) -> (r: Result<Vec<u8>, DecodeError>)
    ensures
        match r {
            Ok(v) => transport_result(segment@, port) == Ok::<Seq<u8>, DecodeError>(v@),
            Err(e) => transport_result(segment@, port) == Err::<Seq<u8>, DecodeError>(e),
        },
{
    match udp_fields(segment) {
        None => Err(DecodeError::MalformedHeader),
        Some((dst, payload)) => {
            if dst != port {
                Err(DecodeError::UnexpectedPort(dst))
            } else {
                Ok(payload)
            }
        },
    }
}

} // verus!
