//! The IPv4 and TCP headers this endpoint reads and writes, held as plain
//! values, and the byte layouts they have on the wire. Parsing, checksums and
//! serialisation are done by the etherparse codec.
use vstd::prelude::*;
use etherparse::{ip_number, Ipv4Header, Ipv4HeaderSlice, TcpHeader, TcpHeaderSlice};

verus! {

/// The IPv4 protocol number of TCP.
pub const PROTOCOL_TCP: u8 = 6;

/// Length of an IPv4 header without options.
pub const IPV4_HEADER_LEN: u16 = 20;

/// Length of a TCP header without options.
pub const TCP_HEADER_LEN: u16 = 20;

/// Why the codec turned a frame down.
#[derive(Debug, Clone, Copy, PartialEq, Eq, Structural)]
pub enum CodecError {
    /// The bytes do not start with a well-formed IPv4 header.
    MalformedIpv4,
    /// The bytes do not start with a well-formed TCP header.
    MalformedTcp,
    /// A header could not be built or written.
    Serialize,
}

/// What this endpoint reads from an inbound IPv4 header.
#[derive(Debug, Clone, Copy)]
pub struct Ipv4Info {
    pub source: [u8; 4],
    pub destination: [u8; 4],
    pub ttl: u8,
    pub protocol: u8,
    /// Header length in bytes, options included.
    pub header_len: usize,
}

/// What this endpoint reads from an inbound TCP header.
#[derive(Debug, Clone, Copy)]
pub struct TcpInfo {
    pub source_port: u16,
    pub destination_port: u16,
    pub sequence_number: u32,
    pub acknowledgment_number: u32,
    pub syn: bool,
    pub ack: bool,
    pub window: u16,
    /// Header length in bytes, options included.
    pub header_len: usize,
}

/// An outbound control segment: an option-less IPv4 header followed by an
/// option-less TCP header and no payload.
#[derive(Debug, Clone, Copy)]
pub struct Segment {
    pub source: [u8; 4],
    pub destination: [u8; 4],
    pub ttl: u8,
    pub source_port: u16,
    pub destination_port: u16,
    pub sequence_number: u32,
    pub acknowledgment_number: u32,
    pub syn: bool,
    pub ack: bool,
    pub window: u16,
}

/// Big-endian 16-bit value at `i`.
pub open spec fn be16(b: Seq<u8>, i: int) -> int {
    b[i] * 0x100 + b[i + 1]
}

/// Big-endian 32-bit value at `i`.
pub open spec fn be32(b: Seq<u8>, i: int) -> int {
    be16(b, i) * 0x1_0000 + be16(b, i + 2)
}

/// Big-endian bytes of a 16-bit value.
pub open spec fn bytes16(x: u16) -> Seq<u8> {
    seq![(x / 0x100) as u8, (x % 0x100) as u8]
}

/// Big-endian bytes of a 32-bit value.
pub open spec fn bytes32(x: u32) -> Seq<u8> {
    bytes16((x / 0x1_0000) as u16) + bytes16((x % 0x1_0000) as u16)
}

/// Whether `b` starts with an IPv4 header the codec accepts: version 4, a
/// header length of at least five words that the bytes hold, and a total
/// length that covers the header.
pub open spec fn ipv4_accepts(b: Seq<u8>) -> bool {
    &&& b.len() >= 20
    &&& b[0] / 16 == 4
    &&& b[0] % 16 >= 5
    &&& b.len() >= (b[0] % 16) * 4
    &&& be16(b, 2) >= (b[0] % 16) * 4
}

/// The fields of the IPv4 header at the start of `b`.
pub open spec fn ipv4_fields_of(h: Ipv4Info, b: Seq<u8>) -> bool {
    &&& h.source@ == b.subrange(12, 16)
    &&& h.destination@ == b.subrange(16, 20)
    &&& h.ttl == b[8]
    &&& h.protocol == b[9]
    &&& h.header_len == (b[0] % 16) * 4
}

/// Whether `b` starts with a TCP header the codec accepts: a data offset of
/// at least five words that the bytes hold.
pub open spec fn tcp_accepts(b: Seq<u8>) -> bool {
    &&& b.len() >= 20
    &&& b[12] / 16 >= 5
    &&& b.len() >= (b[12] / 16) * 4
}

/// The fields of the TCP header at the start of `b`.
pub open spec fn tcp_fields_of(h: TcpInfo, b: Seq<u8>) -> bool {
    &&& h.source_port == be16(b, 0)
    &&& h.destination_port == be16(b, 2)
    &&& h.sequence_number == be32(b, 4)
    &&& h.acknowledgment_number == be32(b, 8)
    &&& h.syn == ((b[13] / 2) % 2 == 1)
    &&& h.ack == ((b[13] / 16) % 2 == 1)
    &&& h.window == be16(b, 14)
    &&& h.header_len == (b[12] / 16) * 4
}

/// The 20 bytes of the segment's IPv4 header with the given checksum: no
/// options, "don't fragment" set, identification zero, protocol TCP.
pub open spec fn ipv4_layout(s: Segment, checksum: u16) -> Seq<u8> {
    seq![0x45u8, 0u8] + bytes16(40) + seq![0u8, 0u8, 0x40u8, 0u8, s.ttl, PROTOCOL_TCP]
        + bytes16(checksum) + s.source@ + s.destination@
}

/// The flags byte of the segment's TCP header.
pub open spec fn tcp_flags(s: Segment) -> u8 {
    ((if s.syn { 2int } else { 0 }) + (if s.ack { 16int } else { 0 })) as u8
}

/// The 20 bytes of the segment's TCP header with the given checksum: no
/// options and a zero urgent pointer.
pub open spec fn tcp_layout(s: Segment, checksum: u16) -> Seq<u8> {
    bytes16(s.source_port) + bytes16(s.destination_port) + bytes32(s.sequence_number)
        + bytes32(s.acknowledgment_number) + seq![0x50u8, tcp_flags(s)] + bytes16(s.window)
        + bytes16(checksum) + bytes16(0)
}

/// The pseudo-header that the TCP checksum covers besides the segment itself.
pub open spec fn pseudo_header(s: Segment) -> Seq<u8> {
    s.source@ + s.destination@ + seq![0u8, PROTOCOL_TCP] + bytes16(TCP_HEADER_LEN)
}

/// The Internet checksum of an IPv4 header, given with its checksum field zeroed.
pub uninterp spec fn ipv4_checksum_of(header: Seq<u8>) -> u16;

/// The Internet checksum of a TCP pseudo-header followed by the segment,
/// given with its checksum field zeroed.
pub uninterp spec fn tcp_checksum_of(covered: Seq<u8>) -> u16;

/// The checksum stored in the segment's IPv4 header.
pub open spec fn segment_ipv4_checksum(s: Segment) -> u16 {
    ipv4_checksum_of(ipv4_layout(s, 0))
}

/// The checksum stored in the segment's TCP header.
pub open spec fn segment_tcp_checksum(s: Segment) -> u16 {
    tcp_checksum_of(pseudo_header(s) + tcp_layout(s, 0))
}

/// The bytes of a whole outbound frame for the segment.
pub open spec fn segment_frame(s: Segment) -> Seq<u8> {
    ipv4_layout(s, segment_ipv4_checksum(s)) + tcp_layout(s, segment_tcp_checksum(s))
}

/// Relies on etherparse's `Ipv4HeaderSlice::from_slice`, which accepts exactly
/// what `ipv4_accepts` describes, and on its field readers.
#[verifier::external_body]
fn read_ipv4(b: &[u8]) -> (r: Result<Ipv4Info, CodecError>)
    ensures
        r is Ok <==> ipv4_accepts(b@),
        r matches Ok(h) ==> ipv4_fields_of(h, b@),
        r matches Err(e) ==> e == CodecError::MalformedIpv4,
{
    match Ipv4HeaderSlice::from_slice(b) {
        Ok(h) => Ok(Ipv4Info {
            source: h.source(),
            destination: h.destination(),
            ttl: h.ttl(),
            protocol: h.protocol(),
            header_len: h.slice().len(),
        }),
        Err(_) => Err(CodecError::MalformedIpv4),
    }
}

/// Relies on etherparse's `TcpHeaderSlice::from_slice`, which accepts exactly
/// what `tcp_accepts` describes, and on its field readers.
#[verifier::external_body]
fn read_tcp(b: &[u8]) -> (r: Result<TcpInfo, CodecError>)
    ensures
        r is Ok <==> tcp_accepts(b@),
        r matches Ok(h) ==> tcp_fields_of(h, b@),
        r matches Err(e) ==> e == CodecError::MalformedTcp,
{
    match TcpHeaderSlice::from_slice(b) {
        Ok(h) => Ok(TcpInfo {
            source_port: h.source_port(),
            destination_port: h.destination_port(),
            sequence_number: h.sequence_number(),
            acknowledgment_number: h.acknowledgment_number(),
            syn: h.syn(),
            ack: h.ack(),
            window: h.window_size(),
            header_len: h.slice().len(),
        }),
        Err(_) => Err(CodecError::MalformedTcp),
    }
}

/// Relies on etherparse's `Ipv4Header::calc_header_checksum`: for a header
/// built by `Ipv4Header::new` with a 20-byte payload every range check
/// passes, and the result is the Internet checksum of the header's words.
#[verifier::external_body]
fn ipv4_checksum(s: &Segment) -> (r: Result<u16, CodecError>)
    ensures
        r is Ok,
        r matches Ok(c) ==> c == ipv4_checksum_of(ipv4_layout(*s, 0)),
{
    let h = Ipv4Header::new(TCP_HEADER_LEN, s.ttl, ip_number::TCP, s.source, s.destination);
    h.calc_header_checksum().map_err(|_| CodecError::Serialize)
}

/// Relies on etherparse's `TcpHeader::calc_checksum_ipv4_raw`: a 20-byte
/// segment fits the length check, and the result is the Internet checksum of
/// the pseudo-header and the header's words.
#[verifier::external_body]
fn tcp_checksum(s: &Segment) -> (r: Result<u16, CodecError>)
    ensures
        r is Ok,
        r matches Ok(c) ==> c == tcp_checksum_of(pseudo_header(*s) + tcp_layout(*s, 0)),
{
    let mut h = TcpHeader::new(s.source_port, s.destination_port, s.sequence_number, s.window);
    h.acknowledgment_number = s.acknowledgment_number;
    h.syn = s.syn;
    h.ack = s.ack;
    h.calc_checksum_ipv4_raw(s.source, s.destination, &[]).map_err(|_| CodecError::Serialize)
}

/// Relies on etherparse's `Ipv4Header::write_raw`, which writes the header
/// with the checksum as given; into a `Vec` the write cannot fail.
#[verifier::external_body]
fn write_ipv4(s: &Segment, checksum: u16) -> (r: Result<Vec<u8>, CodecError>)
    ensures
        r is Ok,
        r matches Ok(v) ==> v@ == ipv4_layout(*s, checksum),
{
    let mut h = Ipv4Header::new(TCP_HEADER_LEN, s.ttl, ip_number::TCP, s.source, s.destination);
    h.header_checksum = checksum;
    let mut out: Vec<u8> = Vec::new();
    h.write_raw(&mut out).map_err(|_| CodecError::Serialize)?;
    Ok(out)
}

/// Relies on etherparse's `TcpHeader::write`, which writes the header with
/// the checksum as given; into a `Vec` the write cannot fail.
#[verifier::external_body]
fn write_tcp(s: &Segment, checksum: u16) -> (r: Result<Vec<u8>, CodecError>)
    ensures
        r is Ok,
        r matches Ok(v) ==> v@ == tcp_layout(*s, checksum),
{
    let mut h = TcpHeader::new(s.source_port, s.destination_port, s.sequence_number, s.window);
    h.acknowledgment_number = s.acknowledgment_number;
    h.syn = s.syn;
    h.ack = s.ack;
    h.checksum = checksum;
    let mut out: Vec<u8> = Vec::new();
    h.write(&mut out).map_err(|_| CodecError::Serialize)?;
    Ok(out)
}

} // verus!

verus! {

/// Builds the bytes of an outbound frame. Every header field is set first,
/// then each checksum is computed over the finished header, stored, and the
/// headers are written: IPv4 first, TCP after it.
pub fn encode_segment(s: &Segment) -> (r: Vec<u8>)
    ensures
        r@ == segment_frame(*s),
{
    // An option-less 40-byte control segment passes every range check of the
    // codec, so the error arms below are never taken.
    let ip_sum = match ipv4_checksum(s) {
        Ok(c) => c,
        Err(_) => 0,
    };
    let tcp_sum = match tcp_checksum(s) {
        Ok(c) => c,
        Err(_) => 0,
    };
    let mut out = match write_ipv4(s, ip_sum) {
        Ok(v) => v,
        Err(_) => Vec::new(),
    };
    let mut tail = match write_tcp(s, tcp_sum) {
        Ok(v) => v,
        Err(_) => Vec::new(),
    };
    out.append(&mut tail);
    out
}

/// An inbound frame split into what the endpoint reads from it.
#[derive(Debug, Clone, Copy)]
pub struct Decoded {
    pub ip: Ipv4Info,
    pub tcp: TcpInfo,
    /// Where the payload starts in the frame.
    pub payload_start: usize,
}

/// Why a frame is not handed to a connection.
#[derive(Debug, Clone, Copy, PartialEq, Eq, Structural)]
pub enum DecodeError {
    /// The codec refused a header.
    Malformed(CodecError),
    /// A well-formed IPv4 packet that does not carry TCP.
    NotTcp,
}

/// Whether the frame decodes into the given IPv4 and TCP headers.
pub open spec fn decodes_to(frame: Seq<u8>, d: Decoded) -> bool {
    &&& ipv4_accepts(frame)
    &&& ipv4_fields_of(d.ip, frame)
    &&& d.ip.protocol == PROTOCOL_TCP
    &&& tcp_accepts(frame.subrange(d.ip.header_len as int, frame.len() as int))
    &&& tcp_fields_of(d.tcp, frame.subrange(d.ip.header_len as int, frame.len() as int))
    &&& d.payload_start == d.ip.header_len + d.tcp.header_len
}

/// The TCP bytes of a frame whose IPv4 header the codec accepts.
pub open spec fn ipv4_payload(frame: Seq<u8>) -> Seq<u8> {
    frame.subrange((frame[0] % 16) * 4, frame.len() as int)
}

/// Reads the IPv4 header of a frame, then the TCP header behind it.
/// A frame that is not IPv4 is malformed; one that carries another protocol
/// is reported as such; a TCP header the codec refuses is malformed.
pub fn decode_frame(frame: &[u8]) -> (r: Result<Decoded, DecodeError>)
    ensures
        r matches Ok(d) ==> decodes_to(frame@, d),
        r == Err::<Decoded, DecodeError>(DecodeError::Malformed(CodecError::MalformedIpv4))
            <==> !ipv4_accepts(frame@),
        r == Err::<Decoded, DecodeError>(DecodeError::NotTcp) <==> ipv4_accepts(frame@)
            && frame@[9] != PROTOCOL_TCP,
        r == Err::<Decoded, DecodeError>(DecodeError::Malformed(CodecError::MalformedTcp))
            <==> ipv4_accepts(frame@) && frame@[9] == PROTOCOL_TCP && !tcp_accepts(
            ipv4_payload(frame@),
        ),
        r matches Err(e) ==> e != DecodeError::Malformed(CodecError::Serialize),
{
    let ip = match read_ipv4(frame) {
        Ok(h) => h,
        Err(e) => {
            return Err(DecodeError::Malformed(e));
        },
    };
    if ip.protocol != PROTOCOL_TCP {
        return Err(DecodeError::NotTcp);
    }
    let rest = vstd::slice::slice_subrange(frame, ip.header_len, frame.len());
    let tcp = match read_tcp(rest) {
        Ok(h) => h,
        Err(e) => {
            return Err(DecodeError::Malformed(e));
        },
    };
    Ok(Decoded { ip, tcp, payload_start: ip.header_len + tcp.header_len })
}

} // verus!

verus! {

/// The segment that a decoded frame describes.
pub open spec fn segment_of(d: Decoded) -> Segment {
    Segment {
        source: d.ip.source,
        destination: d.ip.destination,
        ttl: d.ip.ttl,
        source_port: d.tcp.source_port,
        destination_port: d.tcp.destination_port,
        sequence_number: d.tcp.sequence_number,
        acknowledgment_number: d.tcp.acknowledgment_number,
        syn: d.tcp.syn,
        ack: d.tcp.ack,
        window: d.tcp.window,
    }
}

proof fn lemma_be16_bytes16(x: u16, b: Seq<u8>, i: int)
    requires
        0 <= i,
        i + 2 <= b.len(),
        b.subrange(i, i + 2) == bytes16(x),
    ensures
        be16(b, i) == x,
{
    assert(b[i] == b.subrange(i, i + 2)[0]);
    assert(b[i + 1] == b.subrange(i, i + 2)[1]);
}

proof fn lemma_be32_bytes32(x: u32, b: Seq<u8>, i: int)
    requires
        0 <= i,
        i + 4 <= b.len(),
        b.subrange(i, i + 4) == bytes32(x),
    ensures
        be32(b, i) == x,
{
    let hi = (x / 0x1_0000) as u16;
    let lo = (x % 0x1_0000) as u16;
    assert(b.subrange(i, i + 2) == b.subrange(i, i + 4).subrange(0, 2));
    assert(b.subrange(i + 2, i + 4) == b.subrange(i, i + 4).subrange(2, 4));
    assert(bytes32(x).subrange(0, 2) == bytes16(hi));
    assert(bytes32(x).subrange(2, 4) == bytes16(lo));
    lemma_be16_bytes16(hi, b, i);
    lemma_be16_bytes16(lo, b, i + 2);
}

/// Decoding a frame built by `encode_segment` succeeds and gives back every
/// field of the segment, so encoding the decoded headers again reproduces
/// the frame byte for byte.
pub proof fn lemma_frame_round_trip(s: Segment, d: Decoded)
    ensures
        ipv4_accepts(segment_frame(s)),
        segment_frame(s)[9] == PROTOCOL_TCP,
        tcp_accepts(ipv4_payload(segment_frame(s))),
        decodes_to(segment_frame(s), d) ==> {
            &&& d.ip.source@ == s.source@
            &&& d.ip.destination@ == s.destination@
            &&& segment_of(d).ttl == s.ttl
            &&& d.tcp.source_port == s.source_port
            &&& d.tcp.destination_port == s.destination_port
            &&& d.tcp.sequence_number == s.sequence_number
            &&& d.tcp.acknowledgment_number == s.acknowledgment_number
            &&& d.tcp.syn == s.syn
            &&& d.tcp.ack == s.ack
            &&& d.tcp.window == s.window
            &&& d.payload_start == 40
            &&& segment_frame(segment_of(d)) == segment_frame(s)
        },
{
    let ip = ipv4_layout(s, segment_ipv4_checksum(s));
    let tcp = tcp_layout(s, segment_tcp_checksum(s));
    let f = segment_frame(s);
    assert(ip.len() == 20);
    assert(tcp.len() == 20);
    assert(f[0] == 0x45u8);
    assert(f[2] == 0u8 && f[3] == 40u8);
    assert(f[8] == s.ttl);
    assert(f[9] == PROTOCOL_TCP);
    assert(f.subrange(12, 16) == s.source@);
    assert(f.subrange(16, 20) == s.destination@);
    let p = ipv4_payload(f);
    assert(p == tcp);
    assert(p[12] == 0x50u8);
    assert(p[13] == tcp_flags(s));
    assert(p.subrange(0, 2) == bytes16(s.source_port));
    assert(p.subrange(2, 4) == bytes16(s.destination_port));
    assert(p.subrange(4, 8) == bytes32(s.sequence_number));
    assert(p.subrange(8, 12) == bytes32(s.acknowledgment_number));
    assert(p.subrange(14, 16) == bytes16(s.window));
    lemma_be16_bytes16(s.source_port, p, 0);
    lemma_be16_bytes16(s.destination_port, p, 2);
    lemma_be32_bytes32(s.sequence_number, p, 4);
    lemma_be32_bytes32(s.acknowledgment_number, p, 8);
    lemma_be16_bytes16(s.window, p, 14);
    if decodes_to(f, d) {
        let t = segment_of(d);
        assert(f.subrange(20, 40) == p);
        assert(t.syn == s.syn && t.ack == s.ack);
        assert(ipv4_layout(t, 0) == ipv4_layout(s, 0));
        assert(tcp_layout(t, 0) == tcp_layout(s, 0));
        assert(pseudo_header(t) == pseudo_header(s));
        assert(ipv4_layout(t, segment_ipv4_checksum(t)) == ip);
        assert(tcp_layout(t, segment_tcp_checksum(t)) == tcp);
    }
}

} // verus!
