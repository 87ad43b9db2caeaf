//! The state of one connection and the transitions it makes on inbound
//! segments.
//!
//! A connection is opened passively: it listens, answers the peer's SYN
//! with a SYN+ACK, and is established once the peer acknowledges that.
//! `Connection::on_packet` is the one transition function; it changes the
//! connection and hands back the frame to send, where the transition calls
//! for one. `Connection::accept` takes the first step for a four-tuple that
//! has no connection yet.

use vstd::prelude::*;
use crate::segment::{Ipv4Fields, TcpFields};
use crate::seq::{advance, between_wrapped, forward_distance};
use crate::wire::{frame_bytes, segment_frame, HEADER_LEN};

verus! {

/// The window that a new connection announces to its peer.
pub const INITIAL_SEND_WINDOW: u16 = 10;

/// The address that stands for none, held while a connection listens.
pub const UNSPECIFIED: [u8; 4] = [0, 0, 0, 0];

/// Where a connection stands in its life.
#[derive(Clone, Copy, Debug, PartialEq, Eq, Structural)]
pub enum State {
    /// There is no connection: every segment is dropped.
    Closed,
    /// A SYN is awaited.
    Listen,
    /// The peer's SYN was answered; its acknowledgment is awaited.
    SynRcvd,
    /// Both directions are synchronised.
    Estab,
}

/// The send sequence space.
///
/// ```text
///            1         2          3          4
///       ----------|----------|----------|----------
///              una        nxt        una + wnd
///
/// 1 - sequence numbers that have been acknowledged
/// 2 - sequence numbers of unacknowledged data
/// 3 - sequence numbers allowed for new transmission
/// 4 - sequence numbers that are not yet allowed
/// ```
#[derive(Clone, Copy, Debug, PartialEq, Eq)]
pub struct SendSequenceSpace {
    /// The oldest sequence number sent and not yet acknowledged.
    pub una: u32,
    /// The next sequence number to send.
    pub nxt: u32,
    /// The send window.
    pub wnd: u16,
    /// Whether an urgent pointer is set.
    pub up: bool,
    /// The sequence number of the segment used for the last window update.
    pub wl1: u32,
    /// The acknowledgment number of the segment used for the last window
    /// update.
    pub wl2: u32,
    /// The initial send sequence number.
    pub iss: u32,
}

/// The receive sequence space.
///
/// ```text
///            1          2          3
///       ----------|----------|----------
///              nxt        nxt + wnd
///
/// 1 - sequence numbers that have been received
/// 2 - sequence numbers allowed for new reception
/// 3 - sequence numbers that are not yet allowed
/// ```
#[derive(Clone, Copy, Debug, PartialEq, Eq)]
pub struct RecvSequenceSpace {
    /// The next sequence number expected from the peer.
    pub nxt: u32,
    /// The receive window.
    pub wnd: u16,
    /// Whether an urgent pointer is set.
    pub up: bool,
    /// The initial receive sequence number, taken from the peer's SYN.
    pub irs: u32,
}

/// One end of a TCP connection.
#[derive(Clone, Copy, Debug, PartialEq, Eq)]
pub struct Connection {
    pub state: State,
    pub send: SendSequenceSpace,
    pub recv: RecvSequenceSpace,
    /// This host's address, the source of every reply.
    pub local: [u8; 4],
    /// The peer's address.
    pub remote: [u8; 4],
}

impl SendSequenceSpace {
    /// Whether `ackn` acknowledges something that was sent and not yet
    /// acknowledged: going round the ring from `una`, it comes after `una`
    /// and no later than `nxt`.
    pub open spec fn acceptable_ack(self, ackn: u32) -> bool {
        between_wrapped(self.una, ackn, self.nxt) || ackn == self.nxt
    }

    /// Decides whether an acknowledgment number is acceptable.
    pub fn is_acceptable_ack(&self, ackn: u32) -> (ok: bool)
        ensures
            ok == self.acceptable_ack(ackn),
    {
        Connection::is_between_wrapped(self.una, ackn, self.nxt) || ackn == self.nxt
    }
}

impl RecvSequenceSpace {
    /// The first sequence number past the receive window.
    pub open spec fn window_end(self) -> u32 {
        advance(self.nxt, self.wnd as int)
    }

    /// Whether `seqn` is the next expected sequence number or lies in the
    /// window that follows it.
    pub open spec fn in_window(self, seqn: u32) -> bool {
        seqn == self.nxt || between_wrapped(self.nxt, seqn, self.window_end())
    }

    /// Whether a segment that starts at `seqn` and carries `len` octets is
    /// acceptable: it starts in the window and, where it carries anything,
    /// is no longer than the window and ends in it.
    pub open spec fn acceptable_segment(self, seqn: u32, len: nat) -> bool {
        &&& self.in_window(seqn)
        &&& len > 0 ==> len <= self.wnd && self.in_window(advance(seqn, len - 1))
    }

    /// Decides whether a sequence number is in the window.
    pub fn is_in_window(&self, seqn: u32) -> (ok: bool)
        ensures
            ok == self.in_window(seqn),
    {
        let end: u32 = self.nxt.wrapping_add(self.wnd as u32);
        seqn == self.nxt || Connection::is_between_wrapped(self.nxt, seqn, end)
    }

    /// Decides whether a segment is acceptable.
    pub fn is_acceptable_segment(&self, seqn: u32, len: usize) -> (ok: bool)
        ensures
            ok == self.acceptable_segment(seqn, len as nat),
    {
        if !self.is_in_window(seqn) {
            false
        } else if len == 0 {
            true
        } else if len > self.wnd as usize {
            false
        } else {
            let last: u32 = seqn.wrapping_add((len - 1) as u32);
            self.is_in_window(last)
        }
    }
}

impl Connection {
    /// What every connection satisfies: while the peer's acknowledgment of
    /// the SYN is awaited, the SYN is all that was sent, and nothing of it
    /// is acknowledged.
    pub open spec fn wf(self) -> bool {
        self.state == State::SynRcvd ==> self.send.una == self.send.iss && self.send.nxt
            == advance(self.send.iss, 1)
    }

    /// The connection that listens and will open with the send sequence
    /// number `iss`.
    pub open spec fn listening(iss: u32) -> Connection {
        Connection {
            state: State::Listen,
            send: SendSequenceSpace {
                una: iss,
                nxt: iss,
                wnd: INITIAL_SEND_WINDOW,
                up: false,
                wl1: 0,
                wl2: 0,
                iss,
            },
            recv: RecvSequenceSpace { nxt: 0, wnd: 0, up: false, irs: 0 },
            local: UNSPECIFIED,
            remote: UNSPECIFIED,
        }
    }

    /// Whether the segment `tcph` is the SYN that a listening connection
    /// answers.
    pub open spec fn answers(self, tcph: TcpFields) -> bool {
        self.state == State::Listen && tcph.syn
    }

    /// The listening connection after it has answered the SYN `tcph`,
    /// received in the packet `iph`: the SYN took one send sequence number
    /// and the peer's SYN one of the receive space, whose window is the
    /// one that the peer announced.
    pub open spec fn synchronised(self, iph: Ipv4Fields, tcph: TcpFields) -> Connection {
        Connection {
            state: State::SynRcvd,
            send: SendSequenceSpace {
                una: self.send.iss,
                nxt: advance(self.send.iss, 1),
                ..self.send
            },
            recv: RecvSequenceSpace {
                nxt: advance(tcph.sequence_number, 1),
                wnd: tcph.window_size,
                up: false,
                irs: tcph.sequence_number,
            },
            local: iph.destination,
            remote: iph.source,
        }
    }

    /// The header of the SYN+ACK with which a listening connection answers
    /// the SYN `tcph`: it carries the initial send sequence number,
    /// acknowledges the peer's SYN and announces the send window.
    pub open spec fn syn_ack(self, tcph: TcpFields) -> TcpFields {
        TcpFields {
            source_port: tcph.destination_port,
            destination_port: tcph.source_port,
            sequence_number: self.send.iss,
            acknowledgment_number: advance(tcph.sequence_number, 1),
            syn: true,
            ack: true,
            fin: false,
            rst: false,
            window_size: self.send.wnd,
        }
    }

    /// Whether a synchronised connection takes a segment with header
    /// `tcph` and `len` octets of payload: both its acknowledgment and its
    /// place in the receive window are acceptable.
    pub open spec fn accepts(self, tcph: TcpFields, len: nat) -> bool {
        &&& self.state == State::SynRcvd || self.state == State::Estab
        &&& self.send.acceptable_ack(tcph.acknowledgment_number)
        &&& self.recv.acceptable_segment(tcph.sequence_number, len)
    }

    /// The synchronised connection after it has taken a segment with
    /// header `tcph` and `len` octets of payload: `una` is what the segment
    /// acknowledges, `nxt` of the receive space has moved on by the
    /// sequence numbers that the segment takes up, and the connection is
    /// established.
    pub open spec fn taken(self, tcph: TcpFields, len: nat) -> Connection {
        Connection {
            state: State::Estab,
            send: SendSequenceSpace { una: tcph.acknowledgment_number, ..self.send },
            recv: RecvSequenceSpace {
                nxt: advance(self.recv.nxt, tcph.sequence_cost(len) as int),
                ..self.recv
            },
            ..self
        }
    }

    /// The connection after a segment with header `tcph` and `len` octets
    /// of payload has arrived in the packet `iph`. A segment that is
    /// neither answered nor taken is dropped and changes nothing.
    pub open spec fn after(self, iph: Ipv4Fields, tcph: TcpFields, len: nat) -> Connection {
        if self.answers(tcph) {
            self.synchronised(iph, tcph)
        } else if self.accepts(tcph, len) {
            self.taken(tcph, len)
        } else {
            self
        }
    }

    /// The frame that the connection sends in reply to the segment `tcph`
    /// of the packet `iph`: the SYN+ACK where the segment is answered, and
    /// nothing for any other.
    pub open spec fn reply(self, iph: Ipv4Fields, tcph: TcpFields) -> Option<Seq<u8>> {
        if self.answers(tcph) {
            Some(frame_bytes(iph.destination@, iph.source@, self.syn_ack(tcph), Seq::empty()))
        } else {
            None
        }
    }

    /// A connection that listens and will open with the send sequence
    /// number `iss`.
    pub fn listen(iss: u32) -> (c: Connection)
        ensures
            c == Connection::listening(iss),
            c.wf(),
    {
        Connection {
            state: State::Listen,
            send: SendSequenceSpace {
                una: iss,
                nxt: iss,
                wnd: INITIAL_SEND_WINDOW,
                up: false,
                wl1: 0,
                wl2: 0,
                iss,
            },
            recv: RecvSequenceSpace { nxt: 0, wnd: 0, up: false, irs: 0 },
            local: UNSPECIFIED,
            remote: UNSPECIFIED,
        }
    }

    /// Answers a segment that arrives for a four-tuple without a
    /// connection, on behalf of a listener that opens with the send
    /// sequence number `iss`.
    ///
    /// Anything but a SYN is dropped: the result is `None`. A SYN opens a
    /// connection, and the result holds it, in `SynRcvd`, together with
    /// the frame of the SYN+ACK to send to the peer. The connection counts
    /// as open only once that frame has left: a caller that fails to send
    /// it discards the connection.
    pub fn accept(iph: &Ipv4Fields, tcph: &TcpFields, data: &[u8], iss: u32) -> (opened: Option<
        (Connection, Vec<u8>),
    >)
        ensures
            opened is Some <==> tcph.syn,
            opened matches Some(pair) ==> {
                &&& pair.0 == Connection::listening(iss).synchronised(*iph, *tcph)
                &&& pair.0.wf()
                &&& Some(pair.1@) == Connection::listening(iss).reply(*iph, *tcph)
                &&& pair.1@.len() == 2 * HEADER_LEN
            },
    {
        let mut c = Connection::listen(iss);
        match c.on_packet(iph, tcph, data) {
            Some(frame) => Some((c, frame)),
            None => None,
        }
    }

    /// Decides whether `x` lies strictly inside the circular interval from
    /// `start` to `end`.
    pub fn is_between_wrapped(start: u32, x: u32, end: u32) -> (inside: bool)
        ensures
            inside == between_wrapped(start, x, end),
            inside <==> 0 < forward_distance(start, x) < forward_distance(start, end),
    {
        if start == end {
            false
        } else if start < end {
            start < x && x < end
        } else {
            x > start || x < end
        }
    }

    /// Applies the inbound segment with header `tcph` and payload `data`,
    /// received in the packet `iph`, and returns the frame to send in
    /// reply, if the transition calls for one.
    ///
    /// A listening connection answers a SYN and drops anything else. A
    /// synchronised connection takes a segment only if its acknowledgment
    /// and its place in the receive window are both acceptable. A dropped
    /// segment leaves the connection as it was and is not answered.
    ///
    /// A transition and its reply belong together: a caller that fails to
    /// send the frame restores the connection it had before the call.
    pub fn on_packet(&mut self, iph: &Ipv4Fields, tcph: &TcpFields, data: &[u8]) -> (reply: Option<
        Vec<u8>,
    >)
        ensures
            *final(self) == old(self).after(*iph, *tcph, data@.len()),
            reply is Some <==> old(self).answers(*tcph),
            reply matches Some(frame) ==> Some(frame@) == old(self).reply(*iph, *tcph),
            reply matches Some(frame) ==> frame@.len() == 2 * HEADER_LEN,
            old(self).wf() ==> final(self).wf(),
    {
        match self.state {
            State::Closed => None,
            State::Listen => {
                if !tcph.syn {
                    return None;
                }
                self.send.una = self.send.iss;
                self.send.nxt = self.send.iss;
                self.recv = RecvSequenceSpace {
                    nxt: tcph.sequence_number.wrapping_add(1),
                    wnd: tcph.window_size,
                    up: false,
                    irs: tcph.sequence_number,
                };
                self.local = iph.destination;
                self.remote = iph.source;
                let syn_ack = TcpFields {
                    source_port: tcph.destination_port,
                    destination_port: tcph.source_port,
                    sequence_number: self.send.nxt,
                    acknowledgment_number: self.recv.nxt,
                    syn: true,
                    ack: true,
                    fin: false,
                    rst: false,
                    window_size: self.send.wnd,
                };
                let nothing: Vec<u8> = Vec::new();
                let frame = segment_frame(&self.local, &self.remote, &syn_ack, nothing.as_slice());
                self.send.nxt = self.send.nxt.wrapping_add(1);
                self.state = State::SynRcvd;
                frame
            },
            State::SynRcvd | State::Estab => {
                if !self.send.is_acceptable_ack(tcph.acknowledgment_number) {
                    return None;
                }
                if !self.recv.is_acceptable_segment(tcph.sequence_number, data.len()) {
                    return None;
                }
                let taken: u32 = if tcph.syn {
                    data.len() as u32 + 1
                } else {
                    data.len() as u32
                };
                self.send.una = tcph.acknowledgment_number;
                self.recv.nxt = self.recv.nxt.wrapping_add(taken);
                self.state = State::Estab;
                None
            },
        }
    }
}

/// The SYN+ACK is never stale. It acknowledges exactly what the receive
/// space expects next once the peer's SYN is counted, and it carries the
/// one sequence number that the send space then holds unacknowledged.
pub proof fn lemma_syn_ack_is_current(c: Connection, iph: Ipv4Fields, tcph: TcpFields)
    requires
        c.answers(tcph),
    ensures
        c.syn_ack(tcph).syn && c.syn_ack(tcph).ack,
        c.syn_ack(tcph).acknowledgment_number == c.after(iph, tcph, 0).recv.nxt,
        c.syn_ack(tcph).sequence_number == c.after(iph, tcph, 0).send.una,
        c.after(iph, tcph, 0).send.nxt == advance(c.syn_ack(tcph).sequence_number, 1),
        c.after(iph, tcph, 0).send.acceptable_ack(c.after(iph, tcph, 0).send.nxt),
        c.after(iph, tcph, 0).state == State::SynRcvd,
{
}

/// An acknowledgment that acknowledges nothing new does not open the
/// connection: while the acknowledgment of the SYN is awaited, a segment
/// whose acknowledgment number is `una` is dropped, and neither the state
/// nor the send sequence space changes.
pub proof fn lemma_stale_ack_is_dropped(c: Connection, iph: Ipv4Fields, tcph: TcpFields, len: nat)
    requires
        c.wf(),
        c.state == State::SynRcvd,
        tcph.acknowledgment_number == c.send.una,
    ensures
        !c.send.acceptable_ack(tcph.acknowledgment_number),
        c.after(iph, tcph, len) == c,
        c.reply(iph, tcph) is None,
{
}

/// A segment that starts one past the end of the receive window is
/// dropped: `nxt` of the receive space, and all the rest, stays as it was.
pub proof fn lemma_segment_behind_window_is_dropped(
    c: Connection,
    iph: Ipv4Fields,
    tcph: TcpFields,
    len: nat,
)
    requires
        c.state == State::SynRcvd || c.state == State::Estab,
        tcph.sequence_number == advance(c.recv.nxt, c.recv.wnd + 1),
    ensures
        !c.recv.in_window(tcph.sequence_number),
        c.after(iph, tcph, len) == c,
        c.reply(iph, tcph) is None,
{
}

/// A segment is not applied twice. Once a connection has taken a segment
/// that starts at `nxt` of the receive space and takes up at least one
/// sequence number, the same segment no longer starts in the window: it is
/// dropped, and the connection stays as the first arrival left it.
pub proof fn lemma_replayed_segment_is_dropped(
    c: Connection,
    iph: Ipv4Fields,
    tcph: TcpFields,
    len: nat,
)
    requires
        c.accepts(tcph, len),
        tcph.sequence_number == c.recv.nxt,
        tcph.sequence_cost(len) > 0,
    ensures
        c.after(iph, tcph, len) == c.taken(tcph, len),
        !c.after(iph, tcph, len).recv.in_window(tcph.sequence_number),
        c.after(iph, tcph, len).after(iph, tcph, len) == c.after(iph, tcph, len),
{
}

/// What the window test means on the ring. A segment without payload is
/// acceptable where its sequence number lies less than a window ahead of
/// `nxt`, or is `nxt` itself; one with payload where all of the payload
/// lies in the window.
pub proof fn lemma_acceptable_segment_is_inside_window(r: RecvSequenceSpace, seqn: u32, len: nat)
    ensures
        r.in_window(seqn) <==> forward_distance(r.nxt, seqn) == 0 || forward_distance(r.nxt, seqn)
            < r.wnd,
        len > 0 ==> (r.acceptable_segment(seqn, len) <==> forward_distance(r.nxt, seqn) + len
            <= r.wnd),
{
}

/// The connection never moves backwards: a listening connection stays or
/// is synchronised, a synchronised one stays or is established, an
/// established one stays established, and a closed one stays closed.
pub proof fn lemma_state_only_advances(c: Connection, iph: Ipv4Fields, tcph: TcpFields, len: nat)
    ensures
        c.state == State::Closed ==> c.after(iph, tcph, len) == c,
        c.state == State::Listen ==> c.after(iph, tcph, len).state == State::Listen || c.after(
            iph,
            tcph,
            len,
        ).state == State::SynRcvd,
        c.state == State::SynRcvd ==> c.after(iph, tcph, len).state == State::SynRcvd || c.after(
            iph,
            tcph,
            len,
        ).state == State::Estab,
        c.state == State::Estab ==> c.after(iph, tcph, len).state == State::Estab,
        c.wf() ==> c.after(iph, tcph, len).wf(),
{
}

} // verus!
