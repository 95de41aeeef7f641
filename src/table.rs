//! The connection table and the per-frame dispatch that routes each inbound
//! frame to the connection of its flow.
use vstd::prelude::*;
use std::collections::HashMap;
use crate::connection::{
    accepted_connection, state_after_ack, syn_ack_reply, Connection, StateError,
};
use crate::seq::ack_acceptable;
use crate::wire::{
    be16, be32, decode_frame, decodes_to, ipv4_accepts, ipv4_payload, segment_frame, tcp_accepts,
    Decoded, DecodeError, PROTOCOL_TCP,
};

verus! {

broadcast use vstd::std_specs::hash::group_hash_axioms;

/// One direction of a TCP flow as seen by this endpoint.
#[derive(Debug, Clone, Copy)]
pub struct FlowKey {
    pub source: [u8; 4],
    pub source_port: u16,
    pub destination: [u8; 4],
    pub destination_port: u16,
}

/// The flow key packed into one integer: source address, source port,
/// destination address and destination port, most significant first.
pub open spec fn flow_code(k: FlowKey) -> u128 {
    (be32(k.source@, 0) * 0x1_0000_0000_0000_0000 + k.source_port * 0x1_0000_0000_0000
        + be32(k.destination@, 0) * 0x1_0000 + k.destination_port) as u128
}

/// The flow a decoded frame belongs to.
pub open spec fn flow_of(d: Decoded) -> FlowKey {
    FlowKey {
        source: d.ip.source,
        source_port: d.tcp.source_port,
        destination: d.ip.destination,
        destination_port: d.tcp.destination_port,
    }
}

proof fn lemma_split_unique(x1: int, y1: int, x2: int, y2: int, k: int)
    requires
        k > 0,
        0 <= y1 < k,
        0 <= y2 < k,
        x1 * k + y1 == x2 * k + y2,
    ensures
        x1 == x2,
        y1 == y2,
{
    if x1 > x2 {
        assert(x1 * k - x2 * k >= k) by (nonlinear_arith)
            requires x1 > x2, k > 0;
    } else if x1 < x2 {
        assert(x2 * k - x1 * k >= k) by (nonlinear_arith)
            requires x1 < x2, k > 0;
    }
}

proof fn lemma_be32_unique(a: Seq<u8>, b: Seq<u8>)
    requires
        a.len() == 4,
        b.len() == 4,
        be32(a, 0) == be32(b, 0),
    ensures
        a == b,
{
    lemma_split_unique(be16(a, 0), be16(a, 2), be16(b, 0), be16(b, 2), 0x1_0000);
    lemma_split_unique(a[0] as int, a[1] as int, b[0] as int, b[1] as int, 0x100);
    lemma_split_unique(a[2] as int, a[3] as int, b[2] as int, b[3] as int, 0x100);
    assert(a =~= b);
}

/// Distinct flows never share an entry of the table: equal packed keys come
/// only from equal addresses and ports.
pub proof fn lemma_flow_code_injective(a: FlowKey, b: FlowKey)
    requires
        flow_code(a) == flow_code(b),
    ensures
        a.source@ == b.source@,
        a.source_port == b.source_port,
        a.destination@ == b.destination@,
        a.destination_port == b.destination_port,
{
    let sa = be32(a.source@, 0);
    let sb = be32(b.source@, 0);
    let da = be32(a.destination@, 0);
    let db = be32(b.destination@, 0);
    let ha = sa * 0x1_0000 + a.source_port;
    let hb = sb * 0x1_0000 + b.source_port;
    let ma = ha * 0x1_0000_0000 + da;
    let mb = hb * 0x1_0000_0000 + db;
    assert(ma * 0x1_0000 + a.destination_port == flow_code(a));
    assert(mb * 0x1_0000 + b.destination_port == flow_code(b));
    lemma_split_unique(ma, a.destination_port as int, mb, b.destination_port as int, 0x1_0000);
    lemma_split_unique(ha, da, hb, db, 0x1_0000_0000);
    lemma_split_unique(sa, a.source_port as int, sb, b.source_port as int, 0x1_0000);
    lemma_be32_unique(a.source@, b.source@);
    lemma_be32_unique(a.destination@, b.destination@);
}

impl FlowKey {
    /// The key of the flow a decoded frame belongs to.
    pub fn of(d: &Decoded) -> (r: FlowKey)
        ensures
            r == flow_of(*d),
    {
        FlowKey {
            source: d.ip.source,
            source_port: d.tcp.source_port,
            destination: d.ip.destination,
            destination_port: d.tcp.destination_port,
        }
    }

    /// The key packed into one integer, as `flow_code` describes.
    pub fn code(&self) -> (r: u128)
        ensures
            r == flow_code(*self),
    {
        let s = self.source;
        let d = self.destination;
        let src: u128 = s[0] as u128 * 0x100_0000 + s[1] as u128 * 0x1_0000 + s[2] as u128 * 0x100
            + s[3] as u128;
        let dst: u128 = d[0] as u128 * 0x100_0000 + d[1] as u128 * 0x1_0000 + d[2] as u128 * 0x100
            + d[3] as u128;
        src * 0x1_0000_0000_0000_0000 + self.source_port as u128 * 0x1_0000_0000_0000 + dst
            * 0x1_0000 + self.destination_port as u128
    }
}

/// What became of one inbound frame.
#[derive(Debug)]
pub enum Outcome {
    /// The frame was not a TCP segment the codec could read.
    Dropped(DecodeError),
    /// The state machine refused the segment; the table is unchanged.
    Refused(StateError),
    /// A new connection was created; the frame is the SYN+ACK to transmit.
    Opened(Vec<u8>),
    /// An existing connection handled the segment.
    Advanced,
}

/// Whether the codec reads a TCP segment out of the frame.
pub open spec fn frame_is_tcp(f: Seq<u8>) -> bool {
    ipv4_accepts(f) && f[9] == PROTOCOL_TCP && tcp_accepts(ipv4_payload(f))
}

/// How one decoded segment changes the table, and what it yields.
pub open spec fn dispatched(
    before: Map<u128, Connection>,
    d: Decoded,
    r: Outcome,
    after: Map<u128, Connection>,
) -> bool {
    let code = flow_code(flow_of(d));
    if before.contains_key(code) {
        let c = before[code];
        if ack_acceptable(c.send.unacknowledged, d.tcp.acknowledgment_number, c.send.next) {
            &&& r is Advanced
            &&& after == before.insert(code, Connection { state: state_after_ack(c.state), ..c })
        } else {
            &&& r == Outcome::Refused(StateError::AcknowledgmentCheck)
            &&& after == before
        }
    } else if d.tcp.syn {
        &&& r matches Outcome::Opened(frame) && frame@ == segment_frame(syn_ack_reply(d.ip, d.tcp))
        &&& after == before.insert(code, accepted_connection(d.ip, d.tcp))
    } else {
        &&& r == Outcome::Refused(StateError::ExpectedSynPacket)
        &&& after == before
    }
}

/// All connections of the endpoint, keyed by the packed flow key.
pub struct ConnectionTable {
    pub connections: HashMap<u128, Connection>,
}

impl ConnectionTable {
    /// Every connection in the table is well formed.
    pub open spec fn wf(&self) -> bool {
        forall|k: u128| #[trigger] self.connections@.contains_key(k) ==> self.connections@[k].wf()
    }

    /// An empty table.
    pub fn new() -> (r: ConnectionTable)
        ensures
            r.connections@ == Map::<u128, Connection>::empty(),
            r.wf(),
    {
        ConnectionTable { connections: HashMap::new() }
    }

    /// The connection of a flow, if there is one.
    pub fn get(&self, key: &FlowKey) -> (r: Option<Connection>)
        ensures
            r matches Some(c) ==> self.connections@.contains_key(flow_code(*key))
                && c == self.connections@[flow_code(*key)],
            r is None ==> !self.connections@.contains_key(flow_code(*key)),
    {
        let code = key.code();
        match self.connections.get(&code) {
            Some(c) => Some(*c),
            None => None,
        }
    }

    /// The number of connections.
    pub fn len(&self) -> (r: usize)
        ensures
            r == self.connections@.len(),
    {
        self.connections.len()
    }

    /// Handles one inbound frame. A frame that is not a readable TCP segment
    /// is dropped; one for an unknown flow is accepted if it carries SYN; one
    /// for a known flow goes to that connection. A refusal never changes the
    /// table.
    pub fn handle_frame(&mut self, frame: &[u8]) -> (r: Outcome)
        requires
            old(self).wf(),
        ensures
            final(self).wf(),
            r is Dropped <==> !frame_is_tcp(frame@),
            r matches Outcome::Dropped(e) ==> {
                &&& final(self).connections@ == old(self).connections@
                &&& (e == DecodeError::NotTcp <==> ipv4_accepts(frame@) && frame@[9] != PROTOCOL_TCP)
            },
            frame_is_tcp(frame@) ==> exists|d: Decoded|
                decodes_to(frame@, d) && dispatched(
                    old(self).connections@,
                    d,
                    r,
                    final(self).connections@,
                ),
    {
        let d = match decode_frame(frame) {
            Ok(d) => d,
            Err(e) => {
                return Outcome::Dropped(e);
            },
        };
        let key = FlowKey::of(&d);
        let code = key.code();
        let r = match self.connections.get(&code) {
            Some(existing) => {
                let mut c = *existing;
                match c.on_packet(&d.tcp) {
                    Ok(()) => {
                        self.connections.insert(code, c);
                        proof {
                            assert(c == Connection {
                                state: state_after_ack(existing.state), ..*existing });
                        }
                        Outcome::Advanced
                    },
                    Err(e) => Outcome::Refused(e),
                }
            },
            None => match Connection::accept(&d.ip, &d.tcp) {
                Ok((c, reply)) => {
                    self.connections.insert(code, c);
                    Outcome::Opened(reply)
                },
                Err(e) => Outcome::Refused(e),
            },
        };
        assert(decodes_to(frame@, d));
        r
    }
}

} // verus!
