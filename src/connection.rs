//! One TCP connection: its state, its two sequence spaces, and the handshake
//! transitions.
use vstd::prelude::*;
use crate::seq::{ack_acceptable, is_ack_acceptable, next_sequence, ring_next};
use crate::wire::{encode_segment, segment_frame, Ipv4Info, Segment, TcpInfo};

verus! {

/// The initial send sequence number. A fixed value keeps the endpoint
/// deterministic; a hardened endpoint would draw it unpredictably.
pub const INITIAL_SEND_SEQUENCE: u32 = 0;

/// The receive window this endpoint advertises.
pub const ADVERTISED_WINDOW: u16 = 10;

/// Time to live of every outbound packet.
pub const OUTBOUND_TTL: u8 = 30;

/// Why a segment was refused by the state machine.
#[derive(Debug, Clone, Copy, PartialEq, Eq, Structural)]
pub enum StateError {
    /// A segment for a flow without a connection did not carry SYN.
    ExpectedSynPacket,
    /// The acknowledgment number was not in (UNA, NXT] on the ring.
    AcknowledgmentCheck,
}

impl StateError {
    /// A human-readable description of the error.
    pub fn message(&self) -> (r: &'static str)
        ensures
            *self == StateError::ExpectedSynPacket ==> r@ == "Expected a SYN packet"@,
            *self == StateError::AcknowledgmentCheck ==> r@ == "UNA < ACK <= NXT did not hold"@,
    {
        match self {
            StateError::ExpectedSynPacket => "Expected a SYN packet",
            StateError::AcknowledgmentCheck => "UNA < ACK <= NXT did not hold",
        }
    }
}

/// Where a connection stands in the handshake. Listening is implicit: a flow
/// without a connection.
#[derive(Debug, Clone, Copy, PartialEq, Eq, Structural)]
pub enum State {
    SynReceived,
    Established,
}

/// What this endpoint has sent and what the peer has acknowledged.
#[derive(Debug, Clone, Copy, PartialEq, Eq, Structural)]
pub struct SendSequenceSpace {
    /// Oldest unacknowledged sequence number.
    pub unacknowledged: u32,
    /// Next sequence number to send.
    pub next: u32,
    /// The window the peer advertised.
    pub window: u16,
    pub urgent: bool,
    pub last_window_update_sequence: u32,
    pub last_window_update_acknowledgement: u32,
    /// The initial send sequence number.
    pub initial_sequence: u32,
}

/// What this endpoint has received from the peer.
#[derive(Debug, Clone, Copy, PartialEq, Eq, Structural)]
pub struct ReceiveSequenceSpace {
    /// Next sequence number expected from the peer.
    pub next: u32,
    /// The window this endpoint advertises.
    pub window: u16,
    pub urgent: bool,
    /// The peer's initial sequence number.
    pub initial_sequence: u32,
}

/// The fixed IPv4 fields of every packet a connection sends back.
#[derive(Debug, Clone, Copy)]
pub struct Ipv4Template {
    pub source: [u8; 4],
    pub destination: [u8; 4],
    pub ttl: u8,
}

/// A connection, created by an inbound SYN.
#[derive(Debug, Clone, Copy)]
pub struct Connection {
    pub state: State,
    pub send: SendSequenceSpace,
    pub receive: ReceiveSequenceSpace,
    pub ip_header: Ipv4Template,
}

/// The SYN+ACK that answers a SYN carried by `ip` and `tcp`.
pub open spec fn syn_ack_reply(ip: Ipv4Info, tcp: TcpInfo) -> Segment {
    Segment {
        source: ip.destination,
        destination: ip.source,
        ttl: OUTBOUND_TTL,
        source_port: tcp.destination_port,
        destination_port: tcp.source_port,
        sequence_number: INITIAL_SEND_SEQUENCE,
        acknowledgment_number: ring_next(tcp.sequence_number),
        syn: true,
        ack: true,
        window: ADVERTISED_WINDOW,
    }
}

/// The connection that accepting a SYN carried by `ip` and `tcp` creates.
pub open spec fn accepted_connection(ip: Ipv4Info, tcp: TcpInfo) -> Connection {
    Connection {
        state: State::SynReceived,
        send: SendSequenceSpace {
            unacknowledged: INITIAL_SEND_SEQUENCE,
            next: ring_next(INITIAL_SEND_SEQUENCE),
            window: tcp.window,
            urgent: false,
            last_window_update_sequence: 0,
            last_window_update_acknowledgement: 0,
            initial_sequence: INITIAL_SEND_SEQUENCE,
        },
        receive: ReceiveSequenceSpace {
            next: ring_next(tcp.sequence_number),
            window: ADVERTISED_WINDOW,
            urgent: false,
            initial_sequence: tcp.sequence_number,
        },
        ip_header: Ipv4Template { source: ip.destination, destination: ip.source, ttl: OUTBOUND_TTL },
    }
}

/// The state a connection moves to on an acceptable acknowledgment.
pub open spec fn state_after_ack(s: State) -> State {
    match s {
        State::SynReceived => State::Established,
        State::Established => State::Established,
    }
}

impl Connection {
    /// The sequence spaces are where the handshake leaves them: one byte (the
    /// SYN) sent after the initial send sequence number, none of it
    /// acknowledged yet, and the peer's SYN as the only byte received.
    pub open spec fn wf(&self) -> bool {
        &&& self.send.unacknowledged == self.send.initial_sequence
        &&& self.send.next == ring_next(self.send.initial_sequence)
        &&& self.receive.next == ring_next(self.receive.initial_sequence)
    }

    /// Accepts a new flow. The segment must carry SYN; the connection then
    /// starts in `SynReceived` and the returned frame is the SYN+ACK to send.
    pub fn accept(ip_header: &Ipv4Info, tcp_header: &TcpInfo) -> (r: Result<(Connection, Vec<u8>), StateError>)
        ensures
            r is Ok <==> tcp_header.syn,
            r matches Err(e) ==> e == StateError::ExpectedSynPacket,
            r matches Ok((c, frame)) ==> {
                &&& c == accepted_connection(*ip_header, *tcp_header)
                &&& c.wf()
                &&& frame@ == segment_frame(syn_ack_reply(*ip_header, *tcp_header))
            },
    {
        if !tcp_header.syn {
            return Err(StateError::ExpectedSynPacket);
        }
        let receive = ReceiveSequenceSpace {
            next: next_sequence(tcp_header.sequence_number),
            window: ADVERTISED_WINDOW,
            urgent: false,
            initial_sequence: tcp_header.sequence_number,
        };
        let send = SendSequenceSpace {
            unacknowledged: INITIAL_SEND_SEQUENCE,
            next: next_sequence(INITIAL_SEND_SEQUENCE),
            window: tcp_header.window,
            urgent: false,
            last_window_update_sequence: 0,
            last_window_update_acknowledgement: 0,
            initial_sequence: INITIAL_SEND_SEQUENCE,
        };
        let ip = Ipv4Template {
            source: ip_header.destination,
            destination: ip_header.source,
            ttl: OUTBOUND_TTL,
        };
        let syn_ack = Segment {
            source: ip.source,
            destination: ip.destination,
            ttl: ip.ttl,
            source_port: tcp_header.destination_port,
            destination_port: tcp_header.source_port,
            sequence_number: send.initial_sequence,
            acknowledgment_number: receive.next,
            syn: true,
            ack: true,
            window: receive.window,
        };
        let frame = encode_segment(&syn_ack);
        let connection = Connection { state: State::SynReceived, send, receive, ip_header: ip };
        Ok((connection, frame))
    }

    /// Handles a segment on an existing connection. The acknowledgment number
    /// must lie in (UNA, NXT] on the ring; if it does, a connection in
    /// `SynReceived` becomes `Established`, and otherwise nothing changes.
    pub fn on_packet(&mut self, tcp_header: &TcpInfo) -> (r: Result<(), StateError>)
        ensures
            r is Ok <==> ack_acceptable(
                old(self).send.unacknowledged,
                tcp_header.acknowledgment_number,
                old(self).send.next,
            ),
            r matches Err(e) ==> e == StateError::AcknowledgmentCheck && *final(self) == *old(self),
            r is Ok ==> final(self).state == state_after_ack(old(self).state),
            final(self).send == old(self).send,
            final(self).receive == old(self).receive,
            final(self).ip_header == old(self).ip_header,
    {
        if !is_ack_acceptable(self.send.unacknowledged, tcp_header.acknowledgment_number, self.send.next) {
            return Err(StateError::AcknowledgmentCheck);
        }
        match self.state {
            State::SynReceived => {
                // The peer acknowledged our SYN: the handshake is complete.
                self.state = State::Established;
            },
            State::Established => {},
        }
        Ok(())
    }
}

} // verus!
