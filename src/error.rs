use vstd::prelude::*;

verus! {

/// Why a frame, or a Netflow payload, was rejected.
#[derive(Debug, Clone, Copy, PartialEq, Eq, Structural)]
pub enum DecodeError {
    /// A read of the cursor would have passed the end of the buffer.
    OutOfBounds { offset: usize, len: usize },
    /// A header (Netflow, Ethernet, IPv4 or UDP) is too short or inconsistent.
    MalformedHeader,
    /// The Netflow header carries a version other than 5.
    UnsupportedVersion(u16),
    /// The record with this index does not fit in the payload.
    TruncatedRecord(usize),
    /// The Ethernet type field does not designate IPv4.
    UnexpectedLinkType(u16),
    /// The IPv4 protocol field does not designate UDP.
    UnexpectedNetworkProtocol(u8),
    /// The UDP destination port is not the configured one.
    UnexpectedPort(u16),
}

} // verus!
