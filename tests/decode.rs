use netflow::cursor::Cursor;
use netflow::error::DecodeError;
use netflow::flow::Flow;
use netflow::netflow::{decode, decode_header, decode_records, FlowRecord, NetflowHeader};

fn header_bytes(h: &NetflowHeader) -> Vec<u8> {
    let mut v = Vec::new();
    v.extend_from_slice(&h.version.to_be_bytes());
    v.extend_from_slice(&h.count.to_be_bytes());
    v.extend_from_slice(&h.sys_uptime_ms.to_be_bytes());
    v.extend_from_slice(&h.unix_secs.to_be_bytes());
    v.extend_from_slice(&h.unix_nsecs.to_be_bytes());
    v.extend_from_slice(&h.flow_seq.to_be_bytes());
    v.push(h.engine_type);
    v.push(h.engine_id);
    v.extend_from_slice(&h.sampling_interval.to_be_bytes());
    v
}

fn record_bytes(r: &FlowRecord, pad: u8) -> Vec<u8> {
    let mut v = Vec::new();
    v.extend_from_slice(&r.src_addr.to_be_bytes());
    v.extend_from_slice(&r.dst_addr.to_be_bytes());
    v.extend_from_slice(&r.next_hop.to_be_bytes());
    v.extend_from_slice(&r.input_if.to_be_bytes());
    v.extend_from_slice(&r.output_if.to_be_bytes());
    v.extend_from_slice(&r.packet_count.to_be_bytes());
    v.extend_from_slice(&r.octet_count.to_be_bytes());
    v.extend_from_slice(&r.first_ms.to_be_bytes());
    v.extend_from_slice(&r.last_ms.to_be_bytes());
    v.extend_from_slice(&r.src_port.to_be_bytes());
    v.extend_from_slice(&r.dst_port.to_be_bytes());
    v.push(pad);
    v.push(r.tcp_flags);
    v.push(r.protocol);
    v.push(r.tos);
    v.extend_from_slice(&r.src_as.to_be_bytes());
    v.extend_from_slice(&r.dst_as.to_be_bytes());
    v.push(r.src_mask);
    v.push(r.dst_mask);
    v.push(pad);
    v.push(pad);
    v
}

fn sample_header(count: u16) -> NetflowHeader {
    NetflowHeader {
        version: 5,
        count,
        sys_uptime_ms: 0x0102_0304,
        unix_secs: 1_500_000_000,
        unix_nsecs: 123_456_789,
        flow_seq: 0xdead_beef,
        engine_type: 7,
        engine_id: 9,
        sampling_interval: 0x4001,
    }
}

fn sample_record(n: u8) -> FlowRecord {
    FlowRecord {
        src_addr: u32::from_be_bytes([10, 0, 0, n]),
        dst_addr: u32::from_be_bytes([192, 168, 1, n]),
        next_hop: 0xfffe_fdfc,
        input_if: 3,
        output_if: 0x8001,
        packet_count: 1000 + n as u32,
        octet_count: 0x8000_0000 + n as u32,
        first_ms: 5_000,
        last_ms: 6_000 + n as u32,
        src_port: 443,
        dst_port: 51_000 + n as u16,
        tcp_flags: 0x1b,
        protocol: 6,
        tos: 0xb8,
        src_as: 64_512,
        dst_as: 13_335,
        src_mask: 24,
        dst_mask: 16,
    }
}

fn payload(count: u16, records: &[FlowRecord], pad: u8) -> Vec<u8> {
    let mut v = header_bytes(&sample_header(count));
    for r in records {
        v.extend(record_bytes(r, pad));
    }
    v
}

#[test]
fn cursor_reads_big_endian_fields_in_order() {
    let buf = [0x12u8, 0x34, 0x56, 0x78, 0x9a, 0xbc, 0xde];
    let mut c = Cursor::new(&buf);
    assert_eq!(c.read_u8(), Ok(0x12));
    assert_eq!(c.read_u16(), Ok(0x3456));
    assert_eq!(c.read_u32(), Ok(0x789a_bcde));
    assert_eq!(c.position(), 7);
}

#[test]
fn cursor_out_of_bounds_names_offset_and_length() {
    let buf = [1u8, 2, 3];
    let mut c = Cursor::new(&buf);
    assert_eq!(c.skip(2), Ok(()));
    assert_eq!(c.read_u16(), Err(DecodeError::OutOfBounds { offset: 2, len: 3 }));
    assert_eq!(c.position(), 2);
    assert_eq!(c.read_u32(), Err(DecodeError::OutOfBounds { offset: 2, len: 3 }));
    assert_eq!(c.read_u8(), Ok(3));
    assert_eq!(c.read_u8(), Err(DecodeError::OutOfBounds { offset: 3, len: 3 }));
    assert_eq!(c.skip(1), Err(DecodeError::OutOfBounds { offset: 3, len: 3 }));
}

#[test]
fn short_buffers_fail_header_decoding() {
    let full = header_bytes(&sample_header(0));
    for n in 0..24 {
        assert_eq!(decode_header(&full[..n]), Err(DecodeError::MalformedHeader));
        assert_eq!(decode(&full[..n]), Err(DecodeError::MalformedHeader));
    }
    assert_eq!(decode_header(&full), Ok(sample_header(0)));
}

#[test]
fn exact_payload_yields_all_records_in_order() {
    let recs = vec![sample_record(1), sample_record(2), sample_record(3)];
    let buf = payload(3, &recs, 0);
    assert_eq!(buf.len(), 24 + 48 * 3);
    let (h, got) = decode(&buf).unwrap();
    assert_eq!(h, sample_header(3));
    assert_eq!(got, recs);
}

#[test]
fn empty_record_list_decodes() {
    let buf = payload(0, &[], 0);
    assert_eq!(decode(&buf), Ok((sample_header(0), vec![])));
}

#[test]
fn trailing_bytes_after_records_are_ignored() {
    let recs = vec![sample_record(4)];
    let mut buf = payload(1, &recs, 0);
    buf.extend_from_slice(&[0xaa; 10]);
    assert_eq!(decode(&buf), Ok((sample_header(1), recs)));
}

#[test]
fn truncated_payload_names_first_missing_record() {
    let recs = vec![sample_record(1), sample_record(2)];
    let mut buf = payload(3, &recs, 0);
    assert_eq!(decode(&buf), Err(DecodeError::TruncatedRecord(2)));
    buf.truncate(24 + 48 + 47);
    assert_eq!(decode(&buf), Err(DecodeError::TruncatedRecord(1)));
    buf.truncate(24);
    assert_eq!(decode(&buf), Err(DecodeError::TruncatedRecord(0)));
}

#[test]
fn decode_records_on_short_buffers() {
    let buf = payload(1, &[sample_record(1)], 0);
    assert_eq!(decode_records(&buf[..10], 1), Err(DecodeError::TruncatedRecord(0)));
    assert_eq!(decode_records(&buf[..10], 0), Err(DecodeError::TruncatedRecord(0)));
    assert_eq!(decode_records(&buf[..24], 0), Ok(vec![]));
    assert_eq!(decode_records(&buf, 1), Ok(vec![sample_record(1)]));
    assert_eq!(decode_records(&buf, 2), Err(DecodeError::TruncatedRecord(1)));
}

#[test]
fn round_trip_reproduces_every_field_whatever_the_padding() {
    let recs = vec![sample_record(7), sample_record(200)];
    for pad in [0u8, 0x5a, 0xff] {
        let buf = payload(2, &recs, pad);
        let (h, got) = decode(&buf).unwrap();
        assert_eq!(h, sample_header(2));
        assert_eq!(got, recs);
        assert_eq!(got[1].src_addr, 0x0a00_00c8);
        assert_eq!(got[1].dst_port, 51_200);
        assert_eq!(got[0].tcp_flags, 0x1b);
        assert_eq!(got[0].tos, 0xb8);
    }
}

#[test]
fn boot_time_of_example_header() {
    let h = NetflowHeader {
        version: 5,
        count: 0,
        sys_uptime_ms: 500,
        unix_secs: 1000,
        unix_nsecs: 0,
        flow_seq: 0,
        engine_type: 0,
        engine_id: 0,
        sampling_interval: 0,
    };
    assert_eq!(h.boot_time_ns(), 999_500_000_000);
}

#[test]
fn boot_time_counts_nanoseconds_and_wraps() {
    let mut h = sample_header(0);
    h.unix_secs = 2;
    h.unix_nsecs = 7;
    h.sys_uptime_ms = 1;
    assert_eq!(h.boot_time_ns(), 1_999_000_007);
    h.unix_secs = 0;
    h.unix_nsecs = 0;
    h.sys_uptime_ms = 1;
    assert_eq!(h.boot_time_ns(), u64::MAX - 999_999);
}

#[test]
fn unsupported_version_is_reported() {
    let mut buf = header_bytes(&sample_header(0));
    buf[1] = 9;
    assert_eq!(decode_header(&buf), Err(DecodeError::UnsupportedVersion(9)));
    assert_eq!(decode(&buf), Err(DecodeError::UnsupportedVersion(9)));
    buf[0] = 1;
    assert_eq!(decode(&buf), Err(DecodeError::UnsupportedVersion(0x0109)));
}

#[test]
fn flow_from_record_makes_times_absolute() {
    let r = sample_record(1);
    let f = Flow::from_pdu(&r, 1_000_000_000_000);
    assert_eq!(
        f,
        Flow {
            source: r.src_addr,
            destination: r.dst_addr,
            packets: 1001,
            octets: 0x8000_0001,
            first: 1_005_000_000_000,
            last: 1_006_001_000_000,
            src_port: 443,
            dst_port: 51_001,
            prot: 6,
        }
    );
    let g = Flow::from_pdu(&r, u64::MAX);
    assert_eq!(g.first, 5_000_000_000 - 1);
}
