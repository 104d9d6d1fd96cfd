//! The two per-frame policies and the laws that hold of them.
//!
//! Both policies share the header decoders and produce exactly one terminal
//! verdict per frame. Decode failure always resolves to `Pass` — a hook in
//! the critical receive path must fail open, since dropping unrelated
//! traffic is categorically worse than missing a capture or a block.

use vstd::prelude::*;

use crate::capture::BufferModel;
use crate::capture::CaptureRecord;
use crate::capture::RecordModel;
use crate::capture::RequestInfo;
use crate::capture::RingBuffer;
use crate::capture::spec_buffer_after_export;
use crate::headers::TransportKind;
use crate::headers::decode_ipv4;
use crate::headers::decode_transport;
use crate::headers::spec_daddr;
use crate::headers::spec_dport;
use crate::headers::spec_ip_header_end;
use crate::headers::spec_saddr;
use crate::headers::spec_sport;
use crate::headers::spec_tcp_ok;
use crate::headers::spec_tcp_payload;
use crate::headers::spec_tcp_payload_ok;
use crate::headers::spec_transport_ok;
use crate::headers::tcp_payload_bounds;
use crate::matcher::spec_is_http_method_start;
use crate::matcher::starts_with_http_method;
use vstd::slice::slice_subrange;
use vstd::slice::slice_to_vec;

verus! {

/// The disposition of one frame: continue normal delivery, or discard it
/// before delivery. Produced exactly once per frame, terminal for it.
#[derive(Clone, Copy, PartialEq, Eq, Structural, Debug)]
pub enum Verdict {
    /// Continue normal delivery.
    Pass,
    /// Discard the frame before delivery.
    Drop,
}

/// The frame is a well-formed TCP frame whose payload starts with an HTTP
/// method prefix: exactly the frames the trace policy captures.
pub open spec fn spec_classifies_http(s: Seq<u8>) -> bool {
    spec_tcp_payload_ok(s) && spec_is_http_method_start(spec_tcp_payload(s))
}

/// The request metadata the trace policy copies out of a classified frame's
/// headers.
pub open spec fn spec_request_info(s: Seq<u8>) -> RequestInfo {
    RequestInfo {
        saddr: spec_saddr(s),
        daddr: spec_daddr(s),
        sport: spec_sport(s),
        dport: spec_dport(s),
    }
}

/// The record the trace policy exports for a frame: its request metadata and
/// transport payload when the frame classifies as HTTP, and nothing
/// otherwise.
pub open spec fn spec_capture(s: Seq<u8>) -> Option<RecordModel> {
    if spec_classifies_http(s) {
        Some(RecordModel { info: spec_request_info(s), payload: spec_tcp_payload(s) })
    } else {
        None
    }
}

/// How one run of the trace policy changes the capture buffer: one export
/// for a classified frame, no change for any other.
pub open spec fn spec_trace(s: Seq<u8>, b: BufferModel) -> BufferModel {
    match spec_capture(s) {
        Some(r) => spec_buffer_after_export(b, r),
        None => b,
    }
}

/// What the block policy decides — `Drop` exactly when the frame decodes
/// through the transport layer and its destination port is the blocked one.
pub open spec fn spec_block(s: Seq<u8>, port: u16) -> Verdict {
    if spec_transport_ok(s) && spec_dport(s) == port {
        Verdict::Drop
    } else {
        Verdict::Pass
    }
}

/// The trace-HTTP policy: passes every frame, and for a well-formed TCP
/// frame whose payload starts with an HTTP method prefix it exports one
/// record — the frame's addresses and ports plus a copy of its payload —
/// into the capture buffer.
pub fn trace_http(frame: &[u8], buf: &mut RingBuffer) -> (v: Verdict)
    ensures
        v == Verdict::Pass,
        final(buf)@ == spec_trace(frame@, old(buf)@),
{
    let ip = match decode_ipv4(frame) {
        Some(h) => h,
        None => {
            return Verdict::Pass;
        },
    };
    let transport = match decode_transport(frame) {
        Some(t) => t,
        None => {
            return Verdict::Pass;
        },
    };
    match transport.kind {
        TransportKind::Tcp => {},
        TransportKind::Udp => {
            return Verdict::Pass;
        },
    }
    let payload_off = match tcp_payload_bounds(frame) {
        Some((off, _)) => off,
        None => {
            return Verdict::Pass;
        },
    };
    let payload = slice_subrange(frame, payload_off, frame.len());
    if !starts_with_http_method(payload) {
        return Verdict::Pass;
    }
    let info = RequestInfo {
        saddr: ip.saddr,
        daddr: ip.daddr,
        sport: transport.sport,
        dport: transport.dport,
    };
    let record = CaptureRecord { info, payload: slice_to_vec(payload) };
    buf.push(record);
    Verdict::Pass
}

/// The block-port policy: decodes only through the transport layer and
/// drops exactly the frames whose destination port is `port`; every other
/// frame — including any that fails to decode — passes.
pub fn block_port(frame: &[u8], port: u16) -> (v: Verdict)
    ensures
        v == spec_block(frame@, port),
{
    if let Some(transport) = decode_transport(frame) {
        if transport.dport == port {
            return Verdict::Drop;
        }
    }
    Verdict::Pass
}

/// The block-port policy configured for port 80.
pub fn block_port_80(frame: &[u8]) -> (v: Verdict)
    ensures
        v == spec_block(frame@, 80),
{
    block_port(frame, 80)
}

/// A frame shorter than the minimal Ethernet + IPv4 + TCP header stack is
/// never classified, so the trace policy leaves the capture buffer — queued
/// records and loss counter alike — unchanged.
pub proof fn lemma_short_frame_never_captured(s: Seq<u8>, b: BufferModel)
    requires
        s.len() < 54,
    ensures
        spec_capture(s) is None,
        spec_trace(s, b) == b,
{
    assert(spec_tcp_ok(s) ==> s.len() >= spec_ip_header_end(s) + 20 && spec_ip_header_end(s)
        >= 34);
}

/// A well-formed TCP frame whose payload starts with an HTTP method prefix
/// is exported exactly once, capacity permitting: one record is appended
/// whose metadata are the frame's own addresses and ports and whose payload
/// is the frame's transport payload, and no loss is counted.
pub proof fn lemma_http_request_captured(s: Seq<u8>, b: BufferModel)
    requires
        spec_classifies_http(s),
        b.records.len() < b.cap,
    ensures
        spec_trace(s, b).records == b.records.push(
            RecordModel { info: spec_request_info(s), payload: spec_tcp_payload(s) },
        ),
        spec_trace(s, b).records.len() == b.records.len() + 1,
        spec_trace(s, b).records.last().info.saddr == spec_saddr(s),
        spec_trace(s, b).records.last().info.daddr == spec_daddr(s),
        spec_trace(s, b).records.last().info.sport == spec_sport(s),
        spec_trace(s, b).records.last().info.dport == spec_dport(s),
        spec_trace(s, b).records.last().payload == spec_tcp_payload(s),
        spec_trace(s, b).lost == b.lost,
{
}

/// A well-formed TCP frame whose payload does not start with an HTTP method
/// prefix — in particular one with fewer than six payload octets — is never
/// exported: the trace policy leaves the capture buffer unchanged.
pub proof fn lemma_non_match_never_captured(s: Seq<u8>, b: BufferModel)
    requires
        !spec_is_http_method_start(spec_tcp_payload(s)),
    ensures
        spec_capture(s) is None,
        spec_trace(s, b) == b,
{
}

/// A frame that does not decode as TCP — a non-TCP protocol, or any decode
/// failure — is never exported: the trace policy short-circuits before
/// method matching and leaves the capture buffer unchanged.
pub proof fn lemma_non_tcp_never_captured(s: Seq<u8>, b: BufferModel)
    requires
        !spec_tcp_ok(s),
    ensures
        spec_capture(s) is None,
        spec_trace(s, b) == b,
{
}

/// The block policy drops a frame exactly when it decodes through the
/// transport layer — whatever the transport protocol — with the blocked
/// destination port; every other frame passes.
pub proof fn lemma_block_drops_exactly_blocked_port(s: Seq<u8>, port: u16)
    ensures
        spec_block(s, port) == Verdict::Drop <==> (spec_transport_ok(s) && spec_dport(s)
            == port),
        spec_block(s, port) == Verdict::Pass <==> !(spec_transport_ok(s) && spec_dport(s)
            == port),
{
}

/// Tracing the same frame twice is idempotent in content: with capacity for
/// both, the two runs append two records with identical content and count
/// no loss. (Each run's verdict is `Pass` by `trace_http`'s contract.)
pub proof fn lemma_trace_idempotent(s: Seq<u8>, b: BufferModel)
    requires
        spec_capture(s) is Some,
        b.records.len() + 2 <= b.cap,
    ensures
        spec_trace(s, spec_trace(s, b)).records.len() == b.records.len() + 2,
        spec_trace(s, spec_trace(s, b)).records[b.records.len() as int] == spec_trace(
            s,
            spec_trace(s, b),
        ).records[b.records.len() as int + 1],
        spec_trace(s, spec_trace(s, b)).lost == b.lost,
{
}

} // verus!
