use vstd::prelude::*;
use crate::bytes::{be16, be32};
use crate::cursor::Cursor;
use crate::error::DecodeError;

verus! {

/// Length of the Netflow v5 header in bytes.
pub const HEADER_LEN: usize = 24;

/// Length of one Netflow v5 flow record in bytes.
pub const RECORD_LEN: usize = 48;

/// The only Netflow version this decoder accepts.
pub const NETFLOW_VERSION: u16 = 5;

/// Nanoseconds in a millisecond.
pub const MS_NANO_SECS: u64 = 1_000_000;

/// Nanoseconds in a second.
pub const SEC_NANO_SECS: u64 = 1_000_000_000;

/// The 24-byte Netflow v5 header.
#[derive(Debug, Clone, Copy, PartialEq, Eq, Structural)]
pub struct NetflowHeader {
    pub version: u16,
    pub count: u16,
    pub sys_uptime_ms: u32,
    pub unix_secs: u32,
    pub unix_nsecs: u32,
    pub flow_seq: u32,
    pub engine_type: u8,
    pub engine_id: u8,
    pub sampling_interval: u16,
}

/// One 48-byte Netflow v5 flow record (the padding bytes are not kept).
#[derive(Debug, Clone, Copy, PartialEq, Eq, Structural)]
pub struct FlowRecord {
    pub src_addr: u32,
    pub dst_addr: u32,
    pub next_hop: u32,
    pub input_if: u16,
    pub output_if: u16,
    pub packet_count: u32,
    pub octet_count: u32,
    pub first_ms: u32,
    pub last_ms: u32,
    pub src_port: u16,
    pub dst_port: u16,
    pub tcp_flags: u8,
    pub protocol: u8,
    pub tos: u8,
    pub src_as: u16,
    pub dst_as: u16,
    pub src_mask: u8,
    pub dst_mask: u8,
}

/// The header fields as laid out in the first 24 bytes of `s`.
pub open spec fn header_of(s: Seq<u8>) -> NetflowHeader {
    NetflowHeader {
        version: be16(s, 0) as u16,
        count: be16(s, 2) as u16,
        sys_uptime_ms: be32(s, 4) as u32,
        unix_secs: be32(s, 8) as u32,
        unix_nsecs: be32(s, 12) as u32,
        flow_seq: be32(s, 16) as u32,
        engine_type: s[20],
        engine_id: s[21],
        sampling_interval: be16(s, 22) as u16,
    }
}

/// The record fields as laid out in the 48 bytes of `s` at `o`; the byte at
/// `o + 36` and the last two bytes are padding.
pub open spec fn record_of(s: Seq<u8>, o: int) -> FlowRecord {
    FlowRecord {
        src_addr: be32(s, o) as u32,
        dst_addr: be32(s, o + 4) as u32,
        next_hop: be32(s, o + 8) as u32,
        input_if: be16(s, o + 12) as u16,
        output_if: be16(s, o + 14) as u16,
        packet_count: be32(s, o + 16) as u32,
        octet_count: be32(s, o + 20) as u32,
        first_ms: be32(s, o + 24) as u32,
        last_ms: be32(s, o + 28) as u32,
        src_port: be16(s, o + 32) as u16,
        dst_port: be16(s, o + 34) as u16,
        tcp_flags: s[o + 37],
        protocol: s[o + 38],
        tos: s[o + 39],
        src_as: be16(s, o + 40) as u16,
        dst_as: be16(s, o + 42) as u16,
        src_mask: s[o + 44],
        dst_mask: s[o + 45],
    }
}

/// What decoding the header of `s` gives.
pub open spec fn decoded_header(s: Seq<u8>) -> Result<NetflowHeader, DecodeError> {
    if s.len() < HEADER_LEN {
        Err(DecodeError::MalformedHeader)
    } else if be16(s, 0) != NETFLOW_VERSION {
        Err(DecodeError::UnsupportedVersion(be16(s, 0) as u16))
    } else {
        Ok(header_of(s))
    }
}

/// The first `n` records that follow the header in `s`, in order.
pub open spec fn records_of(s: Seq<u8>, n: nat) -> Seq<FlowRecord> {
    Seq::new(n, |i: int| record_of(s, HEADER_LEN + RECORD_LEN * i))
}

/// Whether `s` holds the header and `count` whole records.
pub open spec fn fits(len: int, count: int) -> bool {
    len >= HEADER_LEN + RECORD_LEN * count
}

/// The index of the first record that a payload of `len` bytes cannot hold.
pub open spec fn first_truncated(len: int) -> int {
    if len < HEADER_LEN {
        0
    } else {
        (len - HEADER_LEN) / RECORD_LEN as int
    }
}

/// What decoding `count` records from `s` gives.
pub open spec fn decoded_records(s: Seq<u8>, count: nat) -> Result<Seq<FlowRecord>, DecodeError> {
    if fits(s.len() as int, count as int) {
        Ok(records_of(s, count))
    } else {
        Err(DecodeError::TruncatedRecord(first_truncated(s.len() as int) as usize))
    }
}

/// What decoding the whole payload `s` gives.
pub open spec fn decoded(s: Seq<u8>) -> Result<(NetflowHeader, Seq<FlowRecord>), DecodeError> {
    match decoded_header(s) {
        Err(e) => Err(e),
        Ok(h) => match decoded_records(s, h.count as nat) {
            Err(e) => Err(e),
            Ok(rs) => Ok((h, rs)),
        },
    }
}

/// `x` reduced modulo 2^64, as 64-bit unsigned arithmetic wraps.
pub open spec fn wrap64(x: int) -> int {
    x % 0x1_0000_0000_0000_0000
}

/// The exporter's boot instant in nanoseconds since the epoch, with 64-bit wrapping.
pub open spec fn boot_time_of(h: NetflowHeader) -> int {
    wrap64(
        h.unix_secs * SEC_NANO_SECS + h.unix_nsecs - h.sys_uptime_ms * MS_NANO_SECS,
    )
}

/// Reads the header fields at the cursor, in wire order.
fn read_header(c: &mut Cursor) -> (r: Result<NetflowHeader, DecodeError>)
    requires
        old(c).pos() == 0,
    ensures
        r.is_ok() == (HEADER_LEN <= old(c).data().len()),
        HEADER_LEN <= old(c).data().len() ==> r == Ok::<NetflowHeader, DecodeError>(
            header_of(old(c).data()),
        ),
{
    let version = c.read_u16()?;
    let count = c.read_u16()?;
    let sys_uptime_ms = c.read_u32()?;
    let unix_secs = c.read_u32()?;
    let unix_nsecs = c.read_u32()?;
    let flow_seq = c.read_u32()?;
    let engine_type = c.read_u8()?;
    let engine_id = c.read_u8()?;
    let sampling_interval = c.read_u16()?;
    Ok(NetflowHeader {
        version,
        count,
        sys_uptime_ms,
        unix_secs,
        unix_nsecs,
        flow_seq,
        engine_type,
        engine_id,
        sampling_interval,
    })
}

/// Decodes the 24-byte header at the start of `buf`.
pub fn decode_header(buf: &[u8]) -> (r: Result<NetflowHeader, DecodeError>)
    ensures
        r == decoded_header(buf@),
{
    let mut c = Cursor::new(buf);
    match read_header(&mut c) {
        Err(_) => Err(DecodeError::MalformedHeader),
        Ok(h) => {
            if h.version != NETFLOW_VERSION {
                Err(DecodeError::UnsupportedVersion(h.version))
            } else {
                Ok(h)
            }
        },
    }
}

/// Reads one record at the cursor, skipping its padding, and moves past it.
fn read_record(c: &mut Cursor) -> (r: Result<FlowRecord, DecodeError>)
    ensures
        final(c).data() == old(c).data(),
        r.is_ok() == (old(c).pos() + RECORD_LEN <= old(c).data().len()),
        r.is_ok() ==> r == Ok::<FlowRecord, DecodeError>(record_of(old(c).data(), old(c).pos()))
            && final(c).pos() == old(c).pos() + RECORD_LEN,
{
    let src_addr = c.read_u32()?;
    let dst_addr = c.read_u32()?;
    let next_hop = c.read_u32()?;
    let input_if = c.read_u16()?;
    let output_if = c.read_u16()?;
    let packet_count = c.read_u32()?;
    let octet_count = c.read_u32()?;
    let first_ms = c.read_u32()?;
    let last_ms = c.read_u32()?;
    let src_port = c.read_u16()?;
    let dst_port = c.read_u16()?;
    c.skip(1)?;
    let tcp_flags = c.read_u8()?;
    let protocol = c.read_u8()?;
    let tos = c.read_u8()?;
    let src_as = c.read_u16()?;
    let dst_as = c.read_u16()?;
    let src_mask = c.read_u8()?;
    let dst_mask = c.read_u8()?;
    c.skip(2)?;
    Ok(FlowRecord {
        src_addr,
        dst_addr,
        next_hop,
        input_if,
        output_if,
        packet_count,
        octet_count,
        first_ms,
        last_ms,
        src_port,
        dst_port,
        tcp_flags,
        protocol,
        tos,
        src_as,
        dst_as,
        src_mask,
        dst_mask,
    })
}

/// Decodes `count` records that follow the 24-byte header in `buf`, in wire order.
pub fn decode_records(buf: &[u8], count: u16) -> (r: Result<Vec<FlowRecord>, DecodeError>)
    ensures
        match r {
            Ok(v) => decoded_records(buf@, count as nat) == Ok::<Seq<FlowRecord>, DecodeError>(v@),
            Err(e) => decoded_records(buf@, count as nat) == Err::<Seq<FlowRecord>, DecodeError>(e),
        },
{
    let mut c = Cursor::new(buf);
    let mut out: Vec<FlowRecord> = Vec::new();
    if c.skip(HEADER_LEN).is_err() {
        return Err(DecodeError::TruncatedRecord(0));
    }
    let mut i: u16 = 0;
    while i < count
        invariant
            0 <= i <= count,
            c.data() == buf@,
            c.pos() == HEADER_LEN + RECORD_LEN * i,
            c.pos() <= buf@.len(),
            out@ == records_of(buf@, i as nat),
        decreases count - i,
    {
        match read_record(&mut c) {
            Err(_) => {
                proof {
                    assert(first_truncated(buf@.len() as int) == i) by (nonlinear_arith)
                        requires
                            buf@.len() >= HEADER_LEN + RECORD_LEN * i,
                            buf@.len() < HEADER_LEN + RECORD_LEN * (i + 1),
                            first_truncated(buf@.len() as int) == (buf@.len() - HEADER_LEN)
                                / RECORD_LEN as int,
                    ;
                    assert(!fits(buf@.len() as int, count as int)) by (nonlinear_arith)
                        requires
                            buf@.len() < HEADER_LEN + RECORD_LEN * (i + 1),
                            i + 1 <= count,
                    ;
                }
                return Err(DecodeError::TruncatedRecord(i as usize));
            },
            Ok(rec) => {
                out.push(rec);
                proof {
                    assert(out@ =~= records_of(buf@, (i + 1) as nat));
                }
                i = i + 1;
            },
        }
    }
    Ok(out)
}

/// Decodes a whole Netflow v5 payload: the header, then the records it announces.
pub fn decode(buf: &[u8]) -> (r: Result<(NetflowHeader, Vec<FlowRecord>), DecodeError>)
    ensures
        match r {
            Ok((h, v)) => decoded(buf@) == Ok::<(NetflowHeader, Seq<FlowRecord>), DecodeError>(
                (h, v@),
            ),
            Err(e) => decoded(buf@) == Err::<(NetflowHeader, Seq<FlowRecord>), DecodeError>(e),
        },
{
    let h = match decode_header(buf) {
        Err(e) => return Err(e),
        Ok(h) => h,
    };
    match decode_records(buf, h.count) {
        Err(e) => Err(e),
        Ok(v) => Ok((h, v)),
    }
}

impl NetflowHeader {
    /// The exporter's boot instant in nanoseconds since the epoch:
    /// `unix_secs * 10^9 + unix_nsecs - sys_uptime_ms * 10^6`, wrapping in 64 bits.
    pub fn boot_time_ns(&self) -> (r: u64)
        ensures
            r == boot_time_of(*self),
    {
        let wall = (self.unix_secs as u64) * SEC_NANO_SECS + (self.unix_nsecs as u64);
        let up = (self.sys_uptime_ms as u64) * MS_NANO_SECS;
        wall.wrapping_sub(up)
    }
}

} // verus!
