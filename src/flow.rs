use vstd::prelude::*;
use crate::netflow::{wrap64, FlowRecord, MS_NANO_SECS};

verus! {

/// A flow as reported to the record sink: addresses, totals, ports, protocol,
/// and absolute timestamps in nanoseconds since the epoch.
#[derive(Debug, Clone, Copy, PartialEq, Eq, Structural)]
pub struct Flow {
    pub source: u32,
    pub destination: u32,
    pub packets: u32,
    pub octets: u32,
    pub first: u64,
    pub last: u64,
    pub src_port: u16,
    pub dst_port: u16,
    pub prot: u8,
}

/// The absolute instant, in nanoseconds, of a timestamp of `ms` milliseconds
/// after the boot instant `boottime`, wrapping in 64 bits.
pub open spec fn absolute_ns(boottime: u64, ms: u32) -> int {
    wrap64(boottime + ms * MS_NANO_SECS)
}

impl Flow {
    /// The flow of record `r`, with its timestamps made absolute from `boottime`.
    pub fn from_pdu(r: &FlowRecord, boottime: u64) -> (f: Self)
        ensures
            f.source == r.src_addr,
            f.destination == r.dst_addr,
            f.packets == r.packet_count,
            f.octets == r.octet_count,
            f.first == absolute_ns(boottime, r.first_ms),
            f.last == absolute_ns(boottime, r.last_ms),
            f.src_port == r.src_port,
            f.dst_port == r.dst_port,
            f.prot == r.protocol,
    {
        Self {
            source: r.src_addr,
            destination: r.dst_addr,
            packets: r.packet_count,
            octets: r.octet_count,
            first: boottime.wrapping_add((r.first_ms as u64) * MS_NANO_SECS),
            last: boottime.wrapping_add((r.last_ms as u64) * MS_NANO_SECS),
            src_port: r.src_port,
            dst_port: r.dst_port,
            prot: r.protocol,
        }
    }
}

} // verus!
