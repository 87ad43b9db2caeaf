//! Serialisation of outbound segments.
//!
//! The layout of the two headers and their checksums are the work of the
//! `etherparse` crate. This module names what that crate produces, states
//! the few facts about it that the state machine relies on, and assembles a
//! frame from the named parts.

use vstd::prelude::*;
use crate::segment::TcpFields;

verus! {

/// The hop limit given to every packet that leaves.
pub const TIME_TO_LIVE: u8 = 64;

/// The length of a TCP header without options, and of an IPv4 header
/// without options.
pub const HEADER_LEN: usize = 20;

/// The longest payload that fits into one IPv4 packet behind the two
/// headers.
pub const MAX_PAYLOAD_LEN: usize = 65495;

/// The TCP checksum of a segment with header `header` and payload `payload`
/// that travels from `source` to `destination`: the value that
/// `etherparse::TcpHeader::calc_checksum_ipv4_raw` computes over the
/// pseudo-header, the header and the payload.
pub uninterp spec fn tcp_checksum_ipv4(
    header: TcpFields,
    source: Seq<u8>,
    destination: Seq<u8>,
    payload: Seq<u8>,
) -> u16;

/// The octets that `etherparse::TcpHeader::write` emits for an option-free
/// header with the fields of `header` and the checksum `checksum`.
pub uninterp spec fn tcp_header_bytes(header: TcpFields, checksum: u16) -> Seq<u8>;

/// The octets that `etherparse::Ipv4Header::write` emits for an option-free
/// header that announces `payload_len` octets of TCP.
pub uninterp spec fn ipv4_header_bytes(
    payload_len: u16,
    time_to_live: u8,
    source: Seq<u8>,
    destination: Seq<u8>,
) -> Seq<u8>;

/// The frame that carries one segment from `source` to `destination`: the
/// IPv4 header, the TCP header with its checksum, then the payload.
pub open spec fn frame_bytes(
    source: Seq<u8>,
    destination: Seq<u8>,
    header: TcpFields,
    payload: Seq<u8>,
) -> Seq<u8> {
    let checksum = tcp_checksum_ipv4(header, source, destination, payload);
    let tcp = tcp_header_bytes(header, checksum);
    let ip = ipv4_header_bytes(
        (HEADER_LEN + payload.len()) as u16,
        TIME_TO_LIVE,
        source,
        destination,
    );
    ip + tcp + payload
}

/// Calls `etherparse::TcpHeader::calc_checksum_ipv4_raw` on a header made
/// by `etherparse::TcpHeader::new` with the fields of `header`. The crate
/// refuses a segment that is longer than 65535 octets, header included, and
/// computes the checksum of any other.
#[verifier::external_body]
fn checksum_of(header: &TcpFields, source: &[u8; 4], destination: &[u8; 4], payload: &[u8]) -> (sum:
    Option<u16>)
    ensures
        sum is Some <==> HEADER_LEN + payload@.len() <= 0xffff,
        sum matches Some(value) ==> value == tcp_checksum_ipv4(
            *header,
            source@,
            destination@,
            payload@,
        ),
{
    let (from, to) = (header.source_port, header.destination_port);
    let mut tcp = etherparse::TcpHeader::new(from, to, header.sequence_number, header.window_size);
    tcp.acknowledgment_number = header.acknowledgment_number;
    tcp.syn = header.syn;
    tcp.ack = header.ack;
    tcp.fin = header.fin;
    tcp.rst = header.rst;
    tcp.calc_checksum_ipv4_raw(*source, *destination, payload).ok()
}

/// Calls `etherparse::TcpHeader::write` on a header made by
/// `etherparse::TcpHeader::new` with the fields of `header` and the given
/// checksum. Such a header has no options, so the crate emits 20 octets;
/// writing into a vector cannot fail.
#[verifier::external_body]
fn write_tcp_header(header: &TcpFields, checksum: u16) -> (bytes: Option<Vec<u8>>)
    ensures
        bytes is Some,
        bytes matches Some(out) ==> out@ == tcp_header_bytes(*header, checksum),
        bytes matches Some(out) ==> out@.len() == HEADER_LEN,
{
    let (from, to) = (header.source_port, header.destination_port);
    let mut tcp = etherparse::TcpHeader::new(from, to, header.sequence_number, header.window_size);
    tcp.acknowledgment_number = header.acknowledgment_number;
    tcp.syn = header.syn;
    tcp.ack = header.ack;
    tcp.fin = header.fin;
    tcp.rst = header.rst;
    tcp.checksum = checksum;
    let mut out = Vec::new();
    match tcp.write(&mut out) {
        Ok(()) => Some(out),
        Err(_) => None,
    }
}

/// Calls `etherparse::Ipv4Header::write` on a header made by
/// `etherparse::Ipv4Header::new` for a TCP payload. The crate refuses a
/// payload length above 65515, which would not fit the total-length field,
/// and otherwise emits the 20 octets of an option-free header with its
/// checksum.
#[verifier::external_body]
fn write_ipv4_header(
    payload_len: u16,
    time_to_live: u8,
    source: &[u8; 4],
    destination: &[u8; 4],
) -> (bytes: Option<Vec<u8>>)
    ensures
        bytes is Some <==> payload_len <= 0xffff - HEADER_LEN,
        bytes matches Some(out) ==> out@ == ipv4_header_bytes(
            payload_len,
            time_to_live,
            source@,
            destination@,
        ),
        bytes matches Some(out) ==> out@.len() == HEADER_LEN,
{
    let protocol = etherparse::IpTrafficClass::Tcp;
    let ip = etherparse::Ipv4Header::new(payload_len, time_to_live, protocol, *source, *destination);
    let mut out = Vec::new();
    match ip.write(&mut out) {
        Ok(()) => Some(out),
        Err(_) => None,
    }
}

/// Serialises the segment with header `header` and payload `payload` into
/// the frame that carries it from `source` to `destination`.
///
/// A payload of more than `MAX_PAYLOAD_LEN` octets does not fit into one
/// packet and yields `None`; every other segment is serialised.
pub fn segment_frame(
    source: &[u8; 4],
    destination: &[u8; 4],
    header: &TcpFields,
    payload: &[u8],
) -> (frame: Option<Vec<u8>>)
    ensures
        frame is Some <==> payload@.len() <= MAX_PAYLOAD_LEN,
        frame matches Some(out) ==> out@ == frame_bytes(
            source@,
            destination@,
            *header,
            payload@,
        ),
        frame matches Some(out) ==> out@.len() == 2 * HEADER_LEN + payload@.len(),
{
    if payload.len() > MAX_PAYLOAD_LEN {
        return None;
    }
    let checksum = checksum_of(header, source, destination, payload).unwrap();
    let mut tcp = write_tcp_header(header, checksum).unwrap();
    let payload_len: u16 = (tcp.len() + payload.len()) as u16;
    let mut out = write_ipv4_header(payload_len, TIME_TO_LIVE, source, destination).unwrap();
    out.append(&mut tcp);
    let mut i: usize = 0;
    while i < payload.len()
        invariant
            i <= payload@.len(),
            out@ == ipv4_header_bytes(payload_len, TIME_TO_LIVE, source@, destination@)
                + tcp_header_bytes(*header, checksum) + payload@.subrange(0, i as int),
        decreases payload@.len() - i,
    {
        out.push(payload[i]);
        i = i + 1;
    }
    proof {
        assert(payload@.subrange(0, i as int) == payload@);
    }
    Some(out)
}

} // verus!
