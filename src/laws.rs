use vstd::prelude::*;
use crate::bytes::{be16, be32};
use crate::error::DecodeError;
use crate::layers::{
    ether_type_of, link_result, network_result, udp_dst_of, ETHERNET_HEADER_LEN,
    ETHERTYPE_IPV4, UDP_HEADER_LEN,
};
use crate::pipeline::{lemma_standard_layers, processed_by, standard_layers, PipelineError, Stage};
use crate::netflow::{
    decoded, decoded_header, decoded_records, first_truncated, fits, header_of, record_of,
    records_of, FlowRecord, NetflowHeader, HEADER_LEN, NETFLOW_VERSION, RECORD_LEN,
};

verus! {

/// Byte `k` (0 = most significant) of the big-endian encoding of `x`.
pub open spec fn byte16(x: u16, k: int) -> u8 {
    if k == 0 {
        (x / 256) as u8
    } else {
        (x % 256) as u8
    }
}

/// Byte `k` (0 = most significant) of the big-endian encoding of `x`.
pub open spec fn byte32(x: u32, k: int) -> u8 {
    if k == 0 {
        (x / 16777216) as u8
    } else if k == 1 {
        ((x / 65536) % 256) as u8
    } else if k == 2 {
        ((x / 256) % 256) as u8
    } else {
        (x % 256) as u8
    }
}

/// Byte `i` of the wire form of the header `h`.
pub open spec fn header_byte(h: NetflowHeader, i: int) -> u8 {
    if i < 2 {
        byte16(h.version, i)
    } else if i < 4 {
        byte16(h.count, i - 2)
    } else if i < 8 {
        byte32(h.sys_uptime_ms, i - 4)
    } else if i < 12 {
        byte32(h.unix_secs, i - 8)
    } else if i < 16 {
        byte32(h.unix_nsecs, i - 12)
    } else if i < 20 {
        byte32(h.flow_seq, i - 16)
    } else if i == 20 {
        h.engine_type
    } else if i == 21 {
        h.engine_id
    } else {
        byte16(h.sampling_interval, i - 22)
    }
}

/// Byte `i` of the wire form of the record `r`, with `pad` in every padding byte.
pub open spec fn record_byte(r: FlowRecord, pad: u8, i: int) -> u8 {
    if i < 4 {
        byte32(r.src_addr, i)
    } else if i < 8 {
        byte32(r.dst_addr, i - 4)
    } else if i < 12 {
        byte32(r.next_hop, i - 8)
    } else if i < 14 {
        byte16(r.input_if, i - 12)
    } else if i < 16 {
        byte16(r.output_if, i - 14)
    } else if i < 20 {
        byte32(r.packet_count, i - 16)
    } else if i < 24 {
        byte32(r.octet_count, i - 20)
    } else if i < 28 {
        byte32(r.first_ms, i - 24)
    } else if i < 32 {
        byte32(r.last_ms, i - 28)
    } else if i < 34 {
        byte16(r.src_port, i - 32)
    } else if i < 36 {
        byte16(r.dst_port, i - 34)
    } else if i == 36 {
        pad
    } else if i == 37 {
        r.tcp_flags
    } else if i == 38 {
        r.protocol
    } else if i == 39 {
        r.tos
    } else if i < 42 {
        byte16(r.src_as, i - 40)
    } else if i < 44 {
        byte16(r.dst_as, i - 42)
    } else if i == 44 {
        r.src_mask
    } else if i == 45 {
        r.dst_mask
    } else {
        pad
    }
}

/// The wire form of a Netflow v5 payload: the header `h`, then the records `rs`,
/// with `pad` in every padding byte.
pub open spec fn encoded(h: NetflowHeader, rs: Seq<FlowRecord>, pad: u8) -> Seq<u8> {
    Seq::new(
        (HEADER_LEN + RECORD_LEN * rs.len()) as nat,
        |i: int|
            if i < HEADER_LEN {
                header_byte(h, i)
            } else {
                record_byte(
                    rs[(i - HEADER_LEN) / RECORD_LEN as int],
                    pad,
                    (i - HEADER_LEN) % RECORD_LEN as int,
                )
            },
    )
}

proof fn lemma_be16_of_bytes(s: Seq<u8>, o: int, x: u16)
    requires
        0 <= o,
        o + 2 <= s.len(),
        s[o] == byte16(x, 0),
        s[o + 1] == byte16(x, 1),
    ensures
        be16(s, o) == x,
{
}

proof fn lemma_be32_of_bytes(s: Seq<u8>, o: int, x: u32)
    requires
        0 <= o,
        o + 4 <= s.len(),
        s[o] == byte32(x, 0),
        s[o + 1] == byte32(x, 1),
        s[o + 2] == byte32(x, 2),
        s[o + 3] == byte32(x, 3),
    ensures
        be32(s, o) == x,
{
}

proof fn lemma_header_of_bytes(s: Seq<u8>, h: NetflowHeader)
    requires
        s.len() >= HEADER_LEN,
        forall|i: int| 0 <= i < HEADER_LEN ==> s[i] == header_byte(h, i),
    ensures
        header_of(s) == h,
{
    assert forall|i: int| 0 <= i < 2 implies s[i] == byte16(h.version, i) && s[i + 2] == byte16(
        h.count,
        i,
    ) && s[i + 22] == byte16(h.sampling_interval, i) by {
        assert(s[i] == header_byte(h, i));
        assert(s[i + 2] == header_byte(h, i + 2));
        assert(s[i + 22] == header_byte(h, i + 22));
    }
    assert forall|i: int| 0 <= i < 4 implies s[i + 4] == byte32(h.sys_uptime_ms, i) && s[i + 8]
        == byte32(h.unix_secs, i) && s[i + 12] == byte32(h.unix_nsecs, i) && s[i + 16] == byte32(
        h.flow_seq,
        i,
    ) by {
        assert(s[i + 4] == header_byte(h, i + 4));
        assert(s[i + 8] == header_byte(h, i + 8));
        assert(s[i + 12] == header_byte(h, i + 12));
        assert(s[i + 16] == header_byte(h, i + 16));
    }
    assert(s[20] == header_byte(h, 20));
    assert(s[21] == header_byte(h, 21));
    lemma_be16_of_bytes(s, 0, h.version);
    lemma_be16_of_bytes(s, 2, h.count);
    lemma_be32_of_bytes(s, 4, h.sys_uptime_ms);
    lemma_be32_of_bytes(s, 8, h.unix_secs);
    lemma_be32_of_bytes(s, 12, h.unix_nsecs);
    lemma_be32_of_bytes(s, 16, h.flow_seq);
    lemma_be16_of_bytes(s, 22, h.sampling_interval);
}

proof fn lemma_record_of_bytes(s: Seq<u8>, o: int, r: FlowRecord, pad: u8)
    requires
        0 <= o,
        o + RECORD_LEN <= s.len(),
        forall|k: int| 0 <= k < RECORD_LEN ==> s[o + k] == record_byte(r, pad, k),
    ensures
        record_of(s, o) == r,
{
    assert forall|k: int| 0 <= k < 4 implies s[o + k] == byte32(r.src_addr, k) && s[o + 4 + k]
        == byte32(r.dst_addr, k) && s[o + 8 + k] == byte32(r.next_hop, k) && s[o + 16 + k]
        == byte32(r.packet_count, k) && s[o + 20 + k] == byte32(r.octet_count, k) && s[o + 24 + k]
        == byte32(r.first_ms, k) && s[o + 28 + k] == byte32(r.last_ms, k) by {
        assert(s[o + k] == record_byte(r, pad, k));
        assert(s[o + 4 + k] == record_byte(r, pad, 4 + k));
        assert(s[o + 8 + k] == record_byte(r, pad, 8 + k));
        assert(s[o + 16 + k] == record_byte(r, pad, 16 + k));
        assert(s[o + 20 + k] == record_byte(r, pad, 20 + k));
        assert(s[o + 24 + k] == record_byte(r, pad, 24 + k));
        assert(s[o + 28 + k] == record_byte(r, pad, 28 + k));
    }
    assert forall|k: int| 0 <= k < 2 implies s[o + 12 + k] == byte16(r.input_if, k) && s[o + 14
        + k] == byte16(r.output_if, k) && s[o + 32 + k] == byte16(r.src_port, k) && s[o + 34 + k]
        == byte16(r.dst_port, k) && s[o + 40 + k] == byte16(r.src_as, k) && s[o + 42 + k]
        == byte16(r.dst_as, k) by {
        assert(s[o + 12 + k] == record_byte(r, pad, 12 + k));
        assert(s[o + 14 + k] == record_byte(r, pad, 14 + k));
        assert(s[o + 32 + k] == record_byte(r, pad, 32 + k));
        assert(s[o + 34 + k] == record_byte(r, pad, 34 + k));
        assert(s[o + 40 + k] == record_byte(r, pad, 40 + k));
        assert(s[o + 42 + k] == record_byte(r, pad, 42 + k));
    }
    assert(s[o + 37] == record_byte(r, pad, 37));
    assert(s[o + 38] == record_byte(r, pad, 38));
    assert(s[o + 39] == record_byte(r, pad, 39));
    assert(s[o + 44] == record_byte(r, pad, 44));
    assert(s[o + 45] == record_byte(r, pad, 45));
    lemma_be32_of_bytes(s, o, r.src_addr);
    lemma_be32_of_bytes(s, o + 4, r.dst_addr);
    lemma_be32_of_bytes(s, o + 8, r.next_hop);
    lemma_be16_of_bytes(s, o + 12, r.input_if);
    lemma_be16_of_bytes(s, o + 14, r.output_if);
    lemma_be32_of_bytes(s, o + 16, r.packet_count);
    lemma_be32_of_bytes(s, o + 20, r.octet_count);
    lemma_be32_of_bytes(s, o + 24, r.first_ms);
    lemma_be32_of_bytes(s, o + 28, r.last_ms);
    lemma_be16_of_bytes(s, o + 32, r.src_port);
    lemma_be16_of_bytes(s, o + 34, r.dst_port);
    lemma_be16_of_bytes(s, o + 40, r.src_as);
    lemma_be16_of_bytes(s, o + 42, r.dst_as);
}

/// Decoding the wire form of a version-5 header and the records it announces gives
/// back exactly that header and those records, in order, whatever the padding bytes hold.
pub proof fn lemma_round_trip(h: NetflowHeader, rs: Seq<FlowRecord>, pad: u8)
    requires
        h.version == NETFLOW_VERSION,
        h.count == rs.len(),
    ensures
        decoded(encoded(h, rs, pad)) == Ok::<(NetflowHeader, Seq<FlowRecord>), DecodeError>((h, rs)),
{
    let s = encoded(h, rs, pad);
    lemma_header_of_bytes(s, h);
    assert forall|j: int| 0 <= j < rs.len() implies record_of(s, HEADER_LEN + RECORD_LEN * j)
        == rs[j] by {
        let o = HEADER_LEN + RECORD_LEN * j;
        assert(o + RECORD_LEN <= s.len()) by (nonlinear_arith)
            requires
                o == HEADER_LEN + RECORD_LEN * j,
                j + 1 <= rs.len(),
                s.len() == HEADER_LEN + RECORD_LEN * rs.len(),
        ;
        assert forall|k: int| 0 <= k < RECORD_LEN implies s[o + k] == record_byte(rs[j], pad, k) by {
            assert((o + k - HEADER_LEN) / RECORD_LEN as int == j && (o + k - HEADER_LEN)
                % RECORD_LEN as int == k) by (nonlinear_arith)
                requires
                    o == HEADER_LEN + RECORD_LEN * j,
                    0 <= k < RECORD_LEN,
            ;
        }
        lemma_record_of_bytes(s, o, rs[j], pad);
    }
    assert(records_of(s, h.count as nat) =~= rs);
}

/// A payload shorter than the 24-byte header never decodes: it is rejected as a
/// malformed header, with no partial result.
pub proof fn lemma_short_header_rejected(s: Seq<u8>)
    requires
        s.len() < HEADER_LEN,
    ensures
        decoded_header(s) == Err::<NetflowHeader, DecodeError>(DecodeError::MalformedHeader),
        decoded(s) == Err::<(NetflowHeader, Seq<FlowRecord>), DecodeError>(
            DecodeError::MalformedHeader,
        ),
{
}

/// A version-5 payload of exactly `24 + 48 * count` bytes decodes into its header
/// and exactly `count` records, the record at index `i` read from offset `24 + 48 * i`.
pub proof fn lemma_exact_payload_decodes(s: Seq<u8>)
    requires
        s.len() >= HEADER_LEN,
        be16(s, 0) == NETFLOW_VERSION,
        s.len() == HEADER_LEN + RECORD_LEN * header_of(s).count,
    ensures
        decoded(s) == Ok::<(NetflowHeader, Seq<FlowRecord>), DecodeError>(
            (header_of(s), records_of(s, header_of(s).count as nat)),
        ),
        records_of(s, header_of(s).count as nat).len() == header_of(s).count,
        forall|i: int|
            0 <= i < header_of(s).count ==> #[trigger] records_of(s, header_of(s).count as nat)[i]
                == record_of(s, HEADER_LEN + RECORD_LEN * i),
{
}

/// A version-5 payload too short for the records its header announces is rejected
/// with the index of the first record that it cannot hold whole.
pub proof fn lemma_truncated_payload_rejected(s: Seq<u8>)
    requires
        s.len() >= HEADER_LEN,
        be16(s, 0) == NETFLOW_VERSION,
        s.len() < HEADER_LEN + RECORD_LEN * header_of(s).count,
    ensures
        decoded(s) == Err::<(NetflowHeader, Seq<FlowRecord>), DecodeError>(
            DecodeError::TruncatedRecord(first_truncated(s.len() as int) as usize),
        ),
        0 <= first_truncated(s.len() as int) < header_of(s).count,
        HEADER_LEN + RECORD_LEN * first_truncated(s.len() as int) <= s.len(),
        s.len() < HEADER_LEN + RECORD_LEN * (first_truncated(s.len() as int) + 1),
{
    let n = s.len() as int;
    let i = first_truncated(n);
    let c = header_of(s).count as int;
    assert(0 <= i && HEADER_LEN + RECORD_LEN * i <= n && n < HEADER_LEN + RECORD_LEN * (i + 1))
        by (nonlinear_arith)
        requires
            n >= HEADER_LEN,
            i == (n - HEADER_LEN) / RECORD_LEN as int,
    ;
    assert(i < c) by (nonlinear_arith)
        requires
            HEADER_LEN + RECORD_LEN * i <= n,
            n < HEADER_LEN + RECORD_LEN * c,
    ;
    assert(!fits(n, c));
}

/// A 24-byte-or-longer payload whose version field is not 5 is rejected as an
/// unsupported version, carrying that version.
pub proof fn lemma_wrong_version_rejected(s: Seq<u8>)
    requires
        s.len() >= HEADER_LEN,
        be16(s, 0) != NETFLOW_VERSION,
    ensures
        decoded(s) == Err::<(NetflowHeader, Seq<FlowRecord>), DecodeError>(
            DecodeError::UnsupportedVersion(be16(s, 0) as u16),
        ),
{
}

/// A frame whose Ethernet type is not IPv4 is rejected at the link stage, and the
/// outcome depends on its first 14 bytes alone: no byte after the link header is read.
pub proof fn lemma_non_ipv4_rejected(s: Seq<u8>, t: Seq<u8>, port: u16)
    requires
        s.len() >= ETHERNET_HEADER_LEN,
        ether_type_of(s) != ETHERTYPE_IPV4,
        t.len() >= ETHERNET_HEADER_LEN,
        t.subrange(0, ETHERNET_HEADER_LEN as int) == s.subrange(0, ETHERNET_HEADER_LEN as int),
    ensures
        processed_by(standard_layers(port), s) == Err::<
            (NetflowHeader, Seq<FlowRecord>),
            PipelineError,
        >(
            PipelineError {
                stage: Stage::Link,
                error: DecodeError::UnexpectedLinkType(ether_type_of(s) as u16),
            },
        ),
        processed_by(standard_layers(port), t) == processed_by(standard_layers(port), s),
{
    lemma_standard_layers(s, port);
    lemma_standard_layers(t, port);
    assert(t[12] == t.subrange(0, ETHERNET_HEADER_LEN as int)[12]);
    assert(t[13] == t.subrange(0, ETHERNET_HEADER_LEN as int)[13]);
    assert(s[12] == s.subrange(0, ETHERNET_HEADER_LEN as int)[12]);
    assert(s[13] == s.subrange(0, ETHERNET_HEADER_LEN as int)[13]);
}

/// A UDP datagram addressed to a port other than the configured one is rejected at
/// the transport stage, whatever its payload holds.
pub proof fn lemma_other_port_rejected(s: Seq<u8>, port: u16)
    requires
        link_result(s) is Ok,
        network_result(link_result(s)->Ok_0) is Ok,
        network_result(link_result(s)->Ok_0)->Ok_0.len() >= UDP_HEADER_LEN,
        udp_dst_of(network_result(link_result(s)->Ok_0)->Ok_0) != port,
    ensures
        processed_by(standard_layers(port), s) == Err::<
            (NetflowHeader, Seq<FlowRecord>),
            PipelineError,
        >(
            PipelineError {
                stage: Stage::Transport,
                error: DecodeError::UnexpectedPort(
                    udp_dst_of(network_result(link_result(s)->Ok_0)->Ok_0) as u16,
                ),
            },
        ),
{
    lemma_standard_layers(s, port);
}

} // verus!
