use xdp_http_filter::capture::RingBuffer;
use xdp_http_filter::headers::{decode_ipv4, decode_transport, tcp_payload_bounds, TransportKind};
use xdp_http_filter::matcher::starts_with_http_method;
use xdp_http_filter::policy::{block_port, block_port_80, trace_http, Verdict};

/// Builds an Ethernet + IPv4 (no options) + TCP (no options) frame.
fn tcp_frame(saddr: [u8; 4], daddr: [u8; 4], sport: u16, dport: u16, payload: &[u8]) -> Vec<u8> {
    let mut f: Vec<u8> = Vec::new();
    f.extend_from_slice(&[0u8; 12]); // destination and source MAC
    f.extend_from_slice(&[0x08, 0x00]); // EtherType IPv4
    f.push(0x45); // version 4, IHL 5
    f.push(0); // DSCP/ECN
    f.extend_from_slice(&[0, 0]); // total length (not read by the decoder)
    f.extend_from_slice(&[0, 0, 0, 0]); // identification, flags, fragment offset
    f.push(64); // TTL
    f.push(6); // protocol TCP
    f.extend_from_slice(&[0, 0]); // header checksum
    f.extend_from_slice(&saddr);
    f.extend_from_slice(&daddr);
    f.extend_from_slice(&sport.to_be_bytes());
    f.extend_from_slice(&dport.to_be_bytes());
    f.extend_from_slice(&[0u8; 8]); // sequence and acknowledgment numbers
    f.push(0x50); // data offset 5, reserved bits 0
    f.push(0); // flags
    f.extend_from_slice(&[0u8; 6]); // window, checksum, urgent pointer
    f.extend_from_slice(payload);
    f
}

/// Builds an Ethernet + IPv4 (no options) + UDP frame.
fn udp_frame(saddr: [u8; 4], daddr: [u8; 4], sport: u16, dport: u16, payload: &[u8]) -> Vec<u8> {
    let mut f: Vec<u8> = Vec::new();
    f.extend_from_slice(&[0u8; 12]);
    f.extend_from_slice(&[0x08, 0x00]);
    f.push(0x45);
    f.push(0);
    f.extend_from_slice(&[0, 0]);
    f.extend_from_slice(&[0, 0, 0, 0]);
    f.push(64);
    f.push(17); // protocol UDP
    f.extend_from_slice(&[0, 0]);
    f.extend_from_slice(&saddr);
    f.extend_from_slice(&daddr);
    f.extend_from_slice(&sport.to_be_bytes());
    f.extend_from_slice(&dport.to_be_bytes());
    f.extend_from_slice(&[0, 0]); // UDP length (not read by the decoder)
    f.extend_from_slice(&[0, 0]); // UDP checksum
    f.extend_from_slice(payload);
    f
}

#[test]
fn get_frame_blocked_and_traced() {
    let payload = b"GET / HTTP/1.1\r\n";
    let frame = tcp_frame([10, 0, 0, 1], [10, 0, 0, 2], 49152, 80, payload);

    assert_eq!(block_port_80(&frame), Verdict::Drop);

    let mut buf = RingBuffer::new(8);
    assert_eq!(trace_http(&frame, &mut buf), Verdict::Pass);
    assert_eq!(buf.len(), 1);
    assert_eq!(buf.lost_count(), 0);
    let rec = buf.pop_front().unwrap();
    assert_eq!(rec.info.saddr, 0x0A000001);
    assert_eq!(rec.info.daddr, 0x0A000002);
    assert_eq!(rec.info.sport, 49152);
    assert_eq!(rec.info.dport, 80);
    assert_eq!(rec.payload, payload.to_vec());
}

#[test]
fn udp_frame_short_circuits_trace_but_not_block() {
    let frame80 = udp_frame([192, 168, 0, 1], [192, 168, 0, 2], 5353, 80, b"GET / HTTP");
    let frame53 = udp_frame([192, 168, 0, 1], [192, 168, 0, 2], 5353, 53, b"GET / HTTP");

    // The block policy evaluates only the destination port field.
    assert_eq!(block_port_80(&frame80), Verdict::Drop);
    assert_eq!(block_port_80(&frame53), Verdict::Pass);

    // The trace policy short-circuits on non-TCP before method matching.
    let mut buf = RingBuffer::new(8);
    assert_eq!(trace_http(&frame80, &mut buf), Verdict::Pass);
    assert_eq!(trace_http(&frame53, &mut buf), Verdict::Pass);
    assert_eq!(buf.len(), 0);
}

#[test]
fn five_byte_payload_fails_closed() {
    let frame = tcp_frame([10, 0, 0, 1], [10, 0, 0, 2], 1234, 80, b"GET /");
    let mut buf = RingBuffer::new(8);
    assert_eq!(trace_http(&frame, &mut buf), Verdict::Pass);
    assert_eq!(buf.len(), 0);
    assert_eq!(buf.lost_count(), 0);
}

#[test]
fn short_frames_pass_without_export() {
    let mut buf = RingBuffer::new(8);
    let empty: Vec<u8> = Vec::new();
    assert_eq!(trace_http(&empty, &mut buf), Verdict::Pass);
    assert_eq!(block_port_80(&empty), Verdict::Pass);
    let short = vec![0u8; 53];
    assert_eq!(trace_http(&short, &mut buf), Verdict::Pass);
    assert_eq!(block_port_80(&short), Verdict::Pass);
    assert_eq!(buf.len(), 0);
}

#[test]
fn every_method_prefix_is_captured() {
    let payloads: [&[u8]; 5] = [b"GET /x", b"HEAD /", b"PUT /x", b"POST /", b"DELETE"];
    for payload in payloads {
        let frame = tcp_frame([1, 2, 3, 4], [5, 6, 7, 8], 4000, 8080, payload);
        let mut buf = RingBuffer::new(4);
        assert_eq!(trace_http(&frame, &mut buf), Verdict::Pass);
        assert_eq!(buf.len(), 1);
        let rec = buf.pop_front().unwrap();
        assert_eq!(rec.info.dport, 8080);
        assert_eq!(rec.payload, payload.to_vec());
    }
}

#[test]
fn non_matching_payloads_are_not_captured() {
    let payloads: [&[u8]; 4] = [b"PATCH ", b"get / ", b"GETX..", b"OPTION"];
    let mut buf = RingBuffer::new(4);
    for payload in payloads {
        let frame = tcp_frame([1, 2, 3, 4], [5, 6, 7, 8], 4000, 80, payload);
        assert_eq!(trace_http(&frame, &mut buf), Verdict::Pass);
    }
    assert_eq!(buf.len(), 0);
}

#[test]
fn tracing_twice_exports_two_identical_records() {
    let payload = b"POST /submit HTTP/1.1";
    let frame = tcp_frame([10, 1, 1, 1], [10, 1, 1, 2], 5555, 80, payload);
    let mut buf = RingBuffer::new(2);
    assert_eq!(trace_http(&frame, &mut buf), Verdict::Pass);
    assert_eq!(trace_http(&frame, &mut buf), Verdict::Pass);
    assert_eq!(buf.len(), 2);
    assert_eq!(buf.lost_count(), 0);
    let first = buf.pop_front().unwrap();
    let second = buf.pop_front().unwrap();
    assert_eq!(first.info, second.info);
    assert_eq!(first.payload, second.payload);
    assert_eq!(first.payload, payload.to_vec());
}

#[test]
fn full_buffer_discards_and_counts_loss() {
    let frame = tcp_frame([10, 1, 1, 1], [10, 1, 1, 2], 5555, 80, b"GET /a");
    let mut buf = RingBuffer::new(1);
    assert_eq!(trace_http(&frame, &mut buf), Verdict::Pass);
    assert_eq!(trace_http(&frame, &mut buf), Verdict::Pass);
    assert_eq!(buf.len(), 1);
    assert_eq!(buf.lost_count(), 1);

    let mut none = RingBuffer::new(0);
    assert_eq!(trace_http(&frame, &mut none), Verdict::Pass);
    assert_eq!(none.len(), 0);
    assert_eq!(none.lost_count(), 1);
}

#[test]
fn records_come_out_in_enqueue_order() {
    let first = tcp_frame([10, 0, 0, 1], [10, 0, 0, 2], 1111, 80, b"GET /1");
    let second = tcp_frame([10, 0, 0, 3], [10, 0, 0, 4], 2222, 80, b"GET /2");
    let mut buf = RingBuffer::new(4);
    trace_http(&first, &mut buf);
    trace_http(&second, &mut buf);
    assert_eq!(buf.pop_front().unwrap().info.sport, 1111);
    assert_eq!(buf.pop_front().unwrap().info.sport, 2222);
    assert!(buf.pop_front().is_none());
}

#[test]
fn block_port_honors_configured_port() {
    let frame = tcp_frame([10, 0, 0, 1], [10, 0, 0, 2], 4000, 8080, b"abcdef");
    assert_eq!(block_port(&frame, 8080), Verdict::Drop);
    assert_eq!(block_port(&frame, 80), Verdict::Pass);
    assert_eq!(block_port_80(&frame), Verdict::Pass);
}

#[test]
fn non_ipv4_ethertype_fails_closed() {
    let mut frame = tcp_frame([10, 0, 0, 1], [10, 0, 0, 2], 4000, 80, b"GET /x");
    frame[12] = 0x86;
    frame[13] = 0xDD;
    assert_eq!(block_port_80(&frame), Verdict::Pass);
    let mut buf = RingBuffer::new(4);
    assert_eq!(trace_http(&frame, &mut buf), Verdict::Pass);
    assert_eq!(buf.len(), 0);
    assert!(decode_ipv4(&frame).is_none());
}

#[test]
fn ip_options_shift_every_later_field() {
    // IHL 6: one 4-octet option between the fixed IP header and the TCP header.
    let mut f: Vec<u8> = Vec::new();
    f.extend_from_slice(&[0u8; 12]);
    f.extend_from_slice(&[0x08, 0x00]);
    f.push(0x46); // version 4, IHL 6
    f.push(0);
    f.extend_from_slice(&[0, 0]);
    f.extend_from_slice(&[0, 0, 0, 0]);
    f.push(64);
    f.push(6);
    f.extend_from_slice(&[0, 0]);
    f.extend_from_slice(&[10, 0, 0, 9]);
    f.extend_from_slice(&[10, 0, 0, 8]);
    f.extend_from_slice(&[1, 1, 1, 1]); // IP option
    f.extend_from_slice(&7777u16.to_be_bytes());
    f.extend_from_slice(&80u16.to_be_bytes());
    f.extend_from_slice(&[0u8; 8]);
    f.push(0x50);
    f.push(0);
    f.extend_from_slice(&[0u8; 6]);
    f.extend_from_slice(b"GET /opt");

    let transport = decode_transport(&f).unwrap();
    assert_eq!(transport.kind, TransportKind::Tcp);
    assert_eq!(transport.sport, 7777);
    assert_eq!(transport.dport, 80);

    let mut buf = RingBuffer::new(4);
    assert_eq!(trace_http(&f, &mut buf), Verdict::Pass);
    let rec = buf.pop_front().unwrap();
    assert_eq!(rec.info.saddr, 0x0A000009);
    assert_eq!(rec.payload, b"GET /opt".to_vec());
}

#[test]
fn bad_data_offset_blocks_but_never_captures() {
    // Data offset 15 points far past the end of the frame.
    let mut frame = tcp_frame([10, 0, 0, 1], [10, 0, 0, 2], 4000, 80, b"GET /x");
    frame[14 + 20 + 12] = 0xF0;
    assert!(tcp_payload_bounds(&frame).is_none());
    // The transport header itself still decodes, so the port check stands.
    assert_eq!(block_port_80(&frame), Verdict::Drop);
    let mut buf = RingBuffer::new(4);
    assert_eq!(trace_http(&frame, &mut buf), Verdict::Pass);
    assert_eq!(buf.len(), 0);

    // A data offset below 5 fails closed too.
    frame[14 + 20 + 12] = 0x40;
    assert!(tcp_payload_bounds(&frame).is_none());
}

#[test]
fn truncated_transport_headers_fail_closed() {
    // 14 + 20 + 19 octets: one short of a complete TCP header.
    let full = tcp_frame([10, 0, 0, 1], [10, 0, 0, 2], 4000, 80, b"");
    let truncated = full[..full.len() - 1].to_vec();
    assert!(decode_ipv4(&truncated).is_some());
    assert!(decode_transport(&truncated).is_none());
    assert_eq!(block_port_80(&truncated), Verdict::Pass);

    // 14 + 20 + 7 octets: one short of a complete UDP header.
    let udp = udp_frame([10, 0, 0, 1], [10, 0, 0, 2], 4000, 80, b"");
    let udp_truncated = udp[..udp.len() - 1].to_vec();
    assert!(decode_transport(&udp_truncated).is_none());
    assert_eq!(block_port_80(&udp_truncated), Verdict::Pass);
}

#[test]
fn udp_transport_decodes_as_udp() {
    let frame = udp_frame([10, 0, 0, 1], [10, 0, 0, 2], 4000, 9999, b"payload");
    let transport = decode_transport(&frame).unwrap();
    assert_eq!(transport.kind, TransportKind::Udp);
    assert_eq!(transport.sport, 4000);
    assert_eq!(transport.dport, 9999);
    assert!(tcp_payload_bounds(&frame).is_none());
}

#[test]
fn matcher_is_exact_and_anchored() {
    assert!(starts_with_http_method(b"GET a."));
    assert!(!starts_with_http_method(b"GETab!")); // the space is part of the prefix
    assert!(starts_with_http_method(b"DELETE /x"));
    assert!(!starts_with_http_method(b"DELET")); // five octets: fail closed
    assert!(!starts_with_http_method(b"DELETX"));
    assert!(!starts_with_http_method(b" GET /")); // not anchored at zero
    assert!(!starts_with_http_method(b""));
    assert!(!starts_with_http_method(b"PUTS /"));
}

#[test]
fn pop_front_on_empty_buffer_is_none() {
    let mut buf = RingBuffer::new(3);
    assert!(buf.pop_front().is_none());
    assert_eq!(buf.len(), 0);
    assert_eq!(buf.capacity(), 3);
    assert_eq!(buf.lost_count(), 0);
}
