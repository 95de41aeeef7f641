use etherparse::{Ipv4HeaderSlice, TcpHeaderSlice};
use usertcp::connection::{Connection, State, StateError};
use usertcp::seq::{is_ack_acceptable, next_sequence};
use usertcp::table::{ConnectionTable, FlowKey, Outcome};
use usertcp::wire::{
    decode_frame, encode_segment, CodecError, DecodeError, Ipv4Info, Segment, TcpInfo,
};

fn segment(syn: bool, ack: bool, seq: u32, ack_no: u32, window: u16) -> Segment {
    Segment {
        source: [1, 2, 3, 4],
        destination: [5, 6, 7, 8],
        ttl: 64,
        source_port: 1234,
        destination_port: 80,
        sequence_number: seq,
        acknowledgment_number: ack_no,
        syn,
        ack,
        window,
    }
}

fn ip_info() -> Ipv4Info {
    Ipv4Info {
        source: [1, 2, 3, 4],
        destination: [5, 6, 7, 8],
        ttl: 64,
        protocol: 6,
        header_len: 20,
    }
}

fn tcp_info(syn: bool, seq: u32, ack_no: u32, window: u16) -> TcpInfo {
    TcpInfo {
        source_port: 1234,
        destination_port: 80,
        sequence_number: seq,
        acknowledgment_number: ack_no,
        syn,
        ack: !syn,
        window,
        header_len: 20,
    }
}

fn flow() -> FlowKey {
    FlowKey { source: [1, 2, 3, 4], source_port: 1234, destination: [5, 6, 7, 8], destination_port: 80 }
}

#[test]
fn ack_equal_to_una_is_rejected() {
    assert!(!is_ack_acceptable(5, 5, 10));
    assert!(!is_ack_acceptable(5, 5, 5));
    assert!(!is_ack_acceptable(u32::MAX, u32::MAX, 3));
}

#[test]
fn ack_equal_to_nxt_is_accepted() {
    assert!(is_ack_acceptable(5, 10, 10));
    assert!(is_ack_acceptable(u32::MAX - 2, 3, 3));
}

#[test]
fn ack_one_after_una_is_accepted() {
    assert!(is_ack_acceptable(5, 6, 10));
    assert!(is_ack_acceptable(u32::MAX, 0, 4));
}

#[test]
fn ack_outside_window_is_rejected() {
    assert!(!is_ack_acceptable(5, 11, 10));
    assert!(!is_ack_acceptable(5, 4, 10));
    assert!(!is_ack_acceptable(0, 2, 1));
}

#[test]
fn ack_across_wrap_follows_ring_order() {
    // nxt has wrapped below una
    let una = u32::MAX - 10;
    let nxt = 10;
    assert!(is_ack_acceptable(una, u32::MAX, nxt));
    assert!(is_ack_acceptable(una, 0, nxt));
    assert!(is_ack_acceptable(una, 10, nxt));
    assert!(!is_ack_acceptable(una, 11, nxt));
    assert!(!is_ack_acceptable(una, una - 1, nxt));
    // ack wrapped while nxt did not
    assert!(!is_ack_acceptable(100, 50, 200));
}

#[test]
fn sequence_numbers_wrap() {
    assert_eq!(next_sequence(7), 8);
    assert_eq!(next_sequence(u32::MAX), 0);
}

#[test]
fn syn_sets_up_both_sequence_spaces() {
    let (c, frame) = Connection::accept(&ip_info(), &tcp_info(true, 1000, 0, 5840)).unwrap();
    assert_eq!(c.state, State::SynReceived);
    assert_eq!(c.receive.initial_sequence, 1000);
    assert_eq!(c.receive.next, 1001);
    assert_eq!(c.receive.window, 10);
    assert_eq!(c.send.initial_sequence, 0);
    assert_eq!(c.send.unacknowledged, 0);
    assert_eq!(c.send.next, 1);
    assert_eq!(c.send.window, 5840);
    assert_eq!(c.ip_header.source, [5, 6, 7, 8]);
    assert_eq!(c.ip_header.destination, [1, 2, 3, 4]);
    assert_eq!(frame.len(), 40);
    let ip = Ipv4HeaderSlice::from_slice(&frame).unwrap();
    let tcp = TcpHeaderSlice::from_slice(&frame[20..]).unwrap();
    assert_eq!(ip.source(), [5, 6, 7, 8]);
    assert_eq!(ip.destination(), [1, 2, 3, 4]);
    assert_eq!(ip.ttl(), 30);
    assert_eq!(ip.protocol(), 6);
    assert_eq!(ip.total_len(), 40);
    assert!(tcp.syn() && tcp.ack());
    assert!(!tcp.fin() && !tcp.rst());
    assert_eq!(tcp.source_port(), 80);
    assert_eq!(tcp.destination_port(), 1234);
    assert_eq!(tcp.sequence_number(), 0);
    assert_eq!(tcp.acknowledgment_number(), 1001);
    assert_eq!(tcp.window_size(), 10);
}

#[test]
fn syn_at_top_of_ring_wraps_receive_next() {
    let (c, _) = Connection::accept(&ip_info(), &tcp_info(true, u32::MAX, 0, 1)).unwrap();
    assert_eq!(c.receive.next, 0);
}

#[test]
fn non_syn_is_refused_by_accept() {
    let r = Connection::accept(&ip_info(), &tcp_info(false, 1000, 1, 5840));
    assert!(matches!(r, Err(StateError::ExpectedSynPacket)));
}

#[test]
fn out_of_window_ack_leaves_connection_unchanged() {
    let (mut c, _) = Connection::accept(&ip_info(), &tcp_info(true, 1000, 0, 5840)).unwrap();
    let before = c;
    assert_eq!(c.on_packet(&tcp_info(false, 1001, 2, 5840)), Err(StateError::AcknowledgmentCheck));
    assert_eq!(c.on_packet(&tcp_info(false, 1001, 0, 5840)), Err(StateError::AcknowledgmentCheck));
    assert_eq!(c.state, State::SynReceived);
    assert_eq!(c.send, before.send);
    assert_eq!(c.receive, before.receive);
}

#[test]
fn in_window_ack_establishes() {
    let (mut c, _) = Connection::accept(&ip_info(), &tcp_info(true, 1000, 0, 5840)).unwrap();
    assert_eq!(c.on_packet(&tcp_info(false, 1001, 1, 5840)), Ok(()));
    assert_eq!(c.state, State::Established);
    assert_eq!(c.on_packet(&tcp_info(false, 1001, 1, 5840)), Ok(()));
    assert_eq!(c.state, State::Established);
}

#[test]
fn error_messages() {
    assert_eq!(StateError::ExpectedSynPacket.message(), "Expected a SYN packet");
    assert_eq!(StateError::AcknowledgmentCheck.message(), "UNA < ACK <= NXT did not hold");
}

#[test]
fn end_to_end_handshake() {
    let mut table = ConnectionTable::new();
    let syn = encode_segment(&segment(true, false, 1000, 0, 5840));
    let reply = match table.handle_frame(&syn) {
        Outcome::Opened(reply) => reply,
        other => panic!("unexpected outcome {:?}", other),
    };
    assert_eq!(table.len(), 1);
    assert_eq!(table.get(&flow()).unwrap().state, State::SynReceived);
    let d = decode_frame(&reply).unwrap();
    assert!(d.tcp.syn && d.tcp.ack);
    assert_eq!(d.tcp.acknowledgment_number, 1001);
    assert_eq!(d.tcp.sequence_number, 0);
    assert_eq!(d.ip.source, [5, 6, 7, 8]);
    assert_eq!(d.tcp.destination_port, 1234);

    let ack = encode_segment(&segment(false, true, 1001, 1, 5840));
    assert!(matches!(table.handle_frame(&ack), Outcome::Advanced));
    assert_eq!(table.len(), 1);
    assert_eq!(table.get(&flow()).unwrap().state, State::Established);
}

#[test]
fn non_syn_to_unknown_flow_creates_nothing() {
    let mut table = ConnectionTable::new();
    let ack = encode_segment(&segment(false, true, 1001, 1, 5840));
    assert!(matches!(table.handle_frame(&ack), Outcome::Refused(StateError::ExpectedSynPacket)));
    assert_eq!(table.len(), 0);
    assert!(table.get(&flow()).is_none());
}

#[test]
fn bad_ack_on_known_flow_keeps_entry() {
    let mut table = ConnectionTable::new();
    table.handle_frame(&encode_segment(&segment(true, false, 1000, 0, 5840)));
    let bad = encode_segment(&segment(false, true, 1001, 7, 5840));
    assert!(matches!(table.handle_frame(&bad), Outcome::Refused(StateError::AcknowledgmentCheck)));
    assert_eq!(table.len(), 1);
    assert_eq!(table.get(&flow()).unwrap().state, State::SynReceived);
}

#[test]
fn flows_are_kept_apart() {
    let mut table = ConnectionTable::new();
    table.handle_frame(&encode_segment(&segment(true, false, 1000, 0, 5840)));
    let mut other = segment(true, false, 5, 0, 100);
    other.source_port = 4321;
    table.handle_frame(&encode_segment(&other));
    assert_eq!(table.len(), 2);
    let key = FlowKey { source_port: 4321, ..flow() };
    assert_eq!(table.get(&key).unwrap().receive.next, 6);
    assert_eq!(table.get(&flow()).unwrap().receive.next, 1001);
}

#[test]
fn flow_code_packs_fields() {
    assert_eq!(flow().code(), 0x0102_0304_04d2_0506_0708_0050u128);
}

#[test]
fn malformed_and_foreign_frames_are_dropped() {
    let mut table = ConnectionTable::new();
    assert!(matches!(
        table.handle_frame(&[1, 2, 3]),
        Outcome::Dropped(DecodeError::Malformed(CodecError::MalformedIpv4))
    ));
    let mut udp = encode_segment(&segment(true, false, 1000, 0, 5840));
    udp[9] = 17;
    assert!(matches!(table.handle_frame(&udp), Outcome::Dropped(DecodeError::NotTcp)));
    let truncated = encode_segment(&segment(true, false, 1000, 0, 5840));
    assert!(matches!(
        table.handle_frame(&truncated[..30]),
        Outcome::Dropped(DecodeError::Malformed(CodecError::MalformedTcp))
    ));
    assert_eq!(table.len(), 0);
}

#[test]
fn checksums_are_valid() {
    let frame = encode_segment(&segment(true, true, 77, 1001, 10));
    let ip = Ipv4HeaderSlice::from_slice(&frame).unwrap();
    let header = ip.to_header();
    assert_ne!(ip.header_checksum(), 0);
    assert_eq!(ip.header_checksum(), header.calc_header_checksum().unwrap());
    let tcp = TcpHeaderSlice::from_slice(&frame[20..]).unwrap();
    assert_ne!(tcp.checksum(), 0);
    assert_eq!(tcp.checksum(), tcp.calc_checksum_ipv4(&ip, &[]).unwrap());
}

#[test]
fn encoded_frame_decodes_to_its_fields() {
    let s = segment(true, true, 0xdead_beef, 0x0102_0304, 0xabcd);
    let frame = encode_segment(&s);
    let d = decode_frame(&frame).unwrap();
    assert_eq!(d.payload_start, 40);
    let again = Segment {
        source: d.ip.source,
        destination: d.ip.destination,
        ttl: d.ip.ttl,
        source_port: d.tcp.source_port,
        destination_port: d.tcp.destination_port,
        sequence_number: d.tcp.sequence_number,
        acknowledgment_number: d.tcp.acknowledgment_number,
        syn: d.tcp.syn,
        ack: d.tcp.ack,
        window: d.tcp.window,
    };
    assert_eq!(encode_segment(&again), frame);
}

#[test]
fn parsed_headers_serialize_to_same_bytes() {
    let frame: Vec<u8> = vec![
        0x45, 0x00, 0x00, 0x28, 0x12, 0x34, 0x40, 0x00, 0x40, 0x06, 0x00, 0x00, 10, 0, 0, 1, 10,
        0, 0, 2, 0x30, 0x39, 0x00, 0x50, 0, 0, 0x03, 0xe8, 0, 0, 0, 0, 0x50, 0x02, 0x16, 0xd0,
        0, 0, 0, 0,
    ];
    let ip = Ipv4HeaderSlice::from_slice(&frame).unwrap();
    let tcp = TcpHeaderSlice::from_slice(&frame[20..]).unwrap();
    let mut out: Vec<u8> = Vec::new();
    ip.to_header().write_raw(&mut out).unwrap();
    tcp.to_header().write(&mut out).unwrap();
    assert_eq!(out, frame);
}
