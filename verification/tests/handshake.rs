use tcp_engine::segment::{Ipv4Fields, TcpFields};
use tcp_engine::tcp::{Connection, State, INITIAL_SEND_WINDOW, UNSPECIFIED};

const PEER: [u8; 4] = [192, 168, 0, 2];
const HOST: [u8; 4] = [192, 168, 0, 1];

fn packet() -> Ipv4Fields {
    Ipv4Fields { source: PEER, destination: HOST }
}

fn segment(sequence_number: u32, acknowledgment_number: u32, syn: bool, ack: bool) -> TcpFields {
    TcpFields {
        source_port: 40000,
        destination_port: 80,
        sequence_number,
        acknowledgment_number,
        syn,
        ack,
        fin: false,
        rst: false,
        window_size: 10,
    }
}

fn synchronised(iss: u32, peer_seq: u32) -> Connection {
    let opened = Connection::accept(&packet(), &segment(peer_seq, 0, true, false), &[], iss);
    opened.unwrap().0
}

fn established(iss: u32, peer_seq: u32) -> Connection {
    let mut c = synchronised(iss, peer_seq);
    let ack = segment(peer_seq.wrapping_add(1), iss.wrapping_add(1), false, true);
    assert!(c.on_packet(&packet(), &ack, &[]).is_none());
    assert_eq!(c.state, State::Estab);
    c
}

#[test]
fn listener_holds_its_initial_sequence_number() {
    let c = Connection::listen(77);
    assert_eq!(c.state, State::Listen);
    assert_eq!(c.send.iss, 77);
    assert_eq!(c.send.una, 77);
    assert_eq!(c.send.nxt, 77);
    assert_eq!(c.send.wnd, INITIAL_SEND_WINDOW);
    assert_eq!(c.local, UNSPECIFIED);
    assert_eq!(c.remote, UNSPECIFIED);
}

#[test]
fn syn_opens_a_connection() {
    let syn = segment(1000, 0, true, false);
    let (c, frame) = Connection::accept(&packet(), &syn, &[], 0).unwrap();
    assert_eq!(c.state, State::SynRcvd);
    assert_eq!(c.recv.nxt, 1001);
    assert_eq!(c.recv.irs, 1000);
    assert_eq!(c.recv.wnd, 10);
    assert!(!c.recv.up);
    assert_eq!(c.send.iss, 0);
    assert_eq!(c.send.una, 0);
    assert_eq!(c.send.nxt, 1);
    assert_eq!(c.send.wnd, 10);
    assert_eq!(c.local, HOST);
    assert_eq!(c.remote, PEER);

    assert_eq!(frame.len(), 40);
    let iph = etherparse::Ipv4HeaderSlice::from_slice(&frame).unwrap();
    assert_eq!(iph.slice().len(), 20);
    let tcph = etherparse::TcpHeaderSlice::from_slice(&frame[20..]).unwrap();
    assert!(tcph.syn());
    assert!(tcph.ack());
    assert!(!tcph.fin());
    assert!(!tcph.rst());
    assert_eq!(tcph.acknowledgment_number(), 1001);
    assert_eq!(tcph.sequence_number(), 0);
    assert_eq!(tcph.window_size(), 10);
    assert_eq!(tcph.source_port(), 80);
    assert_eq!(tcph.destination_port(), 40000);
}

#[test]
fn listening_connection_answers_a_syn() {
    let mut c = Connection::listen(5000);
    let reply = c.on_packet(&packet(), &segment(1000, 0, true, false), &[]);
    assert!(reply.is_some());
    assert_eq!(c.state, State::SynRcvd);
    assert_eq!(c.recv.nxt, 1001);
    assert_eq!(c.send.una, 5000);
    assert_eq!(c.send.nxt, 5001);
    let frame = reply.unwrap();
    let tcph = etherparse::TcpHeaderSlice::from_slice(&frame[20..]).unwrap();
    assert_eq!(tcph.sequence_number(), 5000);
    assert_eq!(tcph.acknowledgment_number(), 1001);
    let same = Connection::accept(&packet(), &segment(1000, 0, true, false), &[], 5000).unwrap();
    assert_eq!(same.0, c);
    assert_eq!(same.1, frame);
}

#[test]
fn anything_but_a_syn_is_not_answered() {
    assert!(Connection::accept(&packet(), &segment(1000, 0, false, true), &[], 0).is_none());
    assert!(Connection::accept(&packet(), &segment(1000, 0, false, false), &[1, 2], 0).is_none());
    let mut c = Connection::listen(9);
    let before = c;
    assert!(c.on_packet(&packet(), &segment(1000, 9, false, true), &[]).is_none());
    assert_eq!(c, before);
    assert_eq!(c.state, State::Listen);
}

#[test]
fn sequence_numbers_wrap_at_the_handshake() {
    let c = synchronised(u32::MAX, u32::MAX);
    assert_eq!(c.send.una, u32::MAX);
    assert_eq!(c.send.nxt, 0);
    assert_eq!(c.recv.irs, u32::MAX);
    assert_eq!(c.recv.nxt, 0);
    let mut c = c;
    assert!(c.on_packet(&packet(), &segment(0, 0, false, true), &[]).is_none());
    assert_eq!(c.state, State::Estab);
    assert_eq!(c.send.una, 0);
}

#[test]
fn acknowledgment_of_the_syn_establishes() {
    let (mut c, frame) =
        Connection::accept(&packet(), &segment(1000, 0, true, false), &[], 300).unwrap();
    let sent = etherparse::TcpHeaderSlice::from_slice(&frame[20..]).unwrap();
    let ack = segment(1001, sent.sequence_number() + 1, false, true);
    let reply = c.on_packet(&packet(), &ack, &[]);
    assert!(reply.is_none());
    assert_eq!(c.state, State::Estab);
    assert_eq!(c.send.una, 301);
    assert_eq!(c.send.nxt, 301);
    assert_eq!(c.recv.nxt, 1001);
}

#[test]
fn stale_acknowledgment_is_dropped() {
    let mut c = synchronised(300, 1000);
    let before = c;
    let stale = segment(1001, c.send.una, false, true);
    assert!(c.on_packet(&packet(), &stale, &[]).is_none());
    assert_eq!(c.state, State::SynRcvd);
    assert_eq!(c.send, before.send);
    assert_eq!(c, before);
}

#[test]
fn acknowledgment_of_what_was_never_sent_is_dropped() {
    let mut c = synchronised(300, 1000);
    let before = c;
    assert!(c.on_packet(&packet(), &segment(1001, 302, false, true), &[]).is_none());
    assert_eq!(c, before);
}

#[test]
fn retransmitted_syn_is_dropped_once_answered() {
    let mut c = synchronised(300, 1000);
    let before = c;
    assert!(c.on_packet(&packet(), &segment(1000, 301, true, false), &[]).is_none());
    assert_eq!(c, before);
}

#[test]
fn segment_behind_the_window_is_dropped() {
    let mut c = established(300, 1000);
    let n = c.recv.nxt;
    let w = u32::from(c.recv.wnd);
    assert_eq!((n, w), (1001, 10));
    let before = c;
    let outside = segment(n + w + 1, 301, false, true);
    assert!(c.on_packet(&packet(), &outside, &[]).is_none());
    assert_eq!(c.recv.nxt, n);
    assert_eq!(c, before);
    let at_end = segment(n + w, 301, false, true);
    assert!(c.on_packet(&packet(), &at_end, &[]).is_none());
    assert_eq!(c, before);
}

#[test]
fn segment_before_the_window_is_dropped() {
    let mut c = established(300, 1000);
    let before = c;
    assert!(c.on_packet(&packet(), &segment(1000, 301, false, true), &[]).is_none());
    assert_eq!(c, before);
}

#[test]
fn payload_advances_the_receive_space() {
    let mut c = established(300, 1000);
    let data = [1u8, 2, 3, 4];
    assert!(c.on_packet(&packet(), &segment(1001, 301, false, true), &data).is_none());
    assert_eq!(c.state, State::Estab);
    assert_eq!(c.recv.nxt, 1005);
    assert_eq!(c.send.una, 301);
    assert_eq!(c.recv.wnd, 10);
    assert_eq!(c.recv.irs, 1000);
}

#[test]
fn payload_in_the_acknowledgment_of_the_syn_is_taken() {
    let mut c = synchronised(300, 1000);
    let data = [7u8; 10];
    assert!(c.on_packet(&packet(), &segment(1001, 301, false, true), &data).is_none());
    assert_eq!(c.state, State::Estab);
    assert_eq!(c.recv.nxt, 1011);
}

#[test]
fn payload_that_overruns_the_window_is_dropped() {
    let mut c = established(300, 1000);
    let before = c;
    let data = [0u8; 11];
    assert!(c.on_packet(&packet(), &segment(1001, 301, false, true), &data).is_none());
    assert_eq!(c, before);
}

#[test]
fn syn_takes_one_sequence_number() {
    let mut c = established(300, 1000);
    let data = [1u8, 2];
    assert!(c.on_packet(&packet(), &segment(1001, 301, true, true), &data).is_none());
    assert_eq!(c.recv.nxt, 1004);
}

#[test]
fn replayed_segment_is_dropped() {
    let mut c = established(300, 1000);
    let data = [1u8, 2, 3];
    let seg = segment(c.recv.nxt, 301, false, true);
    assert!(c.on_packet(&packet(), &seg, &data).is_none());
    assert_eq!(c.recv.nxt, 1004);
    let once = c;
    assert!(!c.recv.is_in_window(seg.sequence_number));
    assert!(c.on_packet(&packet(), &seg, &data).is_none());
    assert_eq!(c.recv.nxt, 1004);
    assert_eq!(c, once);
}

#[test]
fn replayed_segment_is_dropped_across_the_wrap() {
    let mut c = established(300, 0xFFFF_FFFD);
    assert_eq!(c.recv.nxt, 0xFFFF_FFFE);
    let data = [1u8, 2, 3, 4, 5];
    let seg = segment(0xFFFF_FFFE, 301, false, true);
    assert!(c.on_packet(&packet(), &seg, &data).is_none());
    assert_eq!(c.recv.nxt, 3);
    let once = c;
    assert!(c.on_packet(&packet(), &seg, &data).is_none());
    assert_eq!(c, once);
}

#[test]
fn empty_segment_at_next_is_taken_again() {
    let mut c = established(300, 1000);
    let seg = segment(1001, 301, false, true);
    let before = c;
    assert!(c.on_packet(&packet(), &seg, &[]).is_none());
    assert_eq!(c, before);
}

#[test]
fn closed_connection_drops_everything() {
    let mut c = established(300, 1000);
    c.state = State::Closed;
    let before = c;
    assert!(c.on_packet(&packet(), &segment(1001, 301, false, true), &[1]).is_none());
    assert_eq!(c, before);
    assert!(c.on_packet(&packet(), &segment(1001, 301, true, false), &[]).is_none());
    assert_eq!(c, before);
}
