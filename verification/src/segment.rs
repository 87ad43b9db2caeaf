//! The header fields of a segment, as plain values.
//!
//! The state machine never looks at raw bytes: whoever parses a frame hands
//! it the fields below, and it describes a reply in the same terms.

use vstd::prelude::*;

verus! {

/// The addressing of an IPv4 packet.
#[derive(Clone, Copy, Debug, PartialEq, Eq)]
pub struct Ipv4Fields {
    /// The address the packet was sent from.
    pub source: [u8; 4],
    /// The address the packet is sent to.
    pub destination: [u8; 4],
}

/// The fields of a TCP header that the state machine reads and writes.
#[derive(Clone, Copy, Debug, PartialEq, Eq)]
pub struct TcpFields {
    pub source_port: u16,
    pub destination_port: u16,
    /// The sequence number of the segment's first octet, or of the SYN where
    /// there is one.
    pub sequence_number: u32,
    /// The next sequence number that the sender expects to receive.
    pub acknowledgment_number: u32,
    pub syn: bool,
    pub ack: bool,
    pub fin: bool,
    pub rst: bool,
    /// The number of octets that the sender is willing to accept.
    pub window_size: u16,
}

impl TcpFields {
    /// The sequence numbers that a segment with this header and `len`
    /// octets of payload takes up: one for each octet, and one for a SYN.
    pub open spec fn sequence_cost(self, len: nat) -> nat {
        if self.syn {
            len + 1
        } else {
            len
        }
    }
}

} // verus!
