use vstd::prelude::*;
use crate::stream::{Writer, Reader, u16_be, be16, bool_byte, lemma_be16_round_trip};
use crate::packets::{Packet, Framework, ConnectPacket, ConnectPacketV, RegisterUDP, RegisterTCP,
    DiscoverHost, connect_wire, connect_parse, register_udp_wire, register_udp_parse,
    register_tcp_wire, register_tcp_parse, discover_host_wire,
    lemma_connect_round_trip, lemma_register_udp_round_trip, lemma_register_tcp_round_trip};

verus! {

/// Any kind of data that can be marshalled into wire bytes and unmarshalled
/// back. `spec_wire` gives the exact bytes a value puts on the wire, and
/// `spec_parse` the value read back from a byte sequence, if any.
pub trait Data: View + Sized {
    /// The bytes this value puts on the wire.
    spec fn spec_wire(v: Self::V) -> Seq<u8>;

    /// The value read back from the given bytes, or nothing where they do
    /// not decode.
    spec fn spec_parse(data: Seq<u8>) -> Option<Self::V>;

    /// Appends this value's wire bytes to the buffer.
    fn serialize(&self, buf: &mut Writer)
        ensures
            final(buf)@ == old(buf)@ + Self::spec_wire(self@),
    ;

    /// Attempts to read one value back from the given bytes.
    fn deserialize(data: &[u8]) -> (r: Option<Self>)
        ensures
            match r {
                Some(v) => Self::spec_parse(data@) == Some(v@),
                None => Self::spec_parse(data@) is None,
            },
    ;
}

/// Data that can travel as a top-level unit: directly as a UDP datagram, or
/// wrapped with a length prefix as a TCP frame.
pub trait Message: Data {

}

// ---------------------------------------------------------------------------
// LZ4 block compression of packet bodies.
// ---------------------------------------------------------------------------

/// The LZ4 block compression of a byte sequence, a function of the bytes
/// alone.
pub uninterp spec fn lz4_compressed(data: Seq<u8>) -> Seq<u8>;

/// The LZ4 block decompression of a byte sequence, given the expected
/// decompressed size; nothing where the bytes are not a block that fits that
/// size.
pub uninterp spec fn lz4_decompressed(data: Seq<u8>, size: int) -> Option<Seq<u8>>;

/// Relies on lz4_flex::block::compress: the compressed block is a function
/// of the input bytes alone, and lz4_flex::block::decompress returns exactly
/// the input again when handed the block and the input's length.
#[verifier::external_body]
fn lz4_compress(data: &[u8]) -> (r: Vec<u8>)
    ensures
        r@ == lz4_compressed(data@),
        lz4_decompressed(r@, data@.len() as int) == Some(data@),
{
    lz4_flex::block::compress(data)
}

/// Relies on lz4_flex::block::decompress: with its default safe decoder it
/// returns the decompressed bytes, or an error value (mapped to nothing
/// here) where the input is not a valid block or overruns the given size.
#[verifier::external_body]
fn lz4_decompress(data: &[u8], size: usize) -> (r: Option<Vec<u8>>)
    requires
        size <= 0xffff,
    ensures
        match r {
            Some(v) => lz4_decompressed(data@, size as int) == Some(v@),
            None => lz4_decompressed(data@, size as int) is None,
        },
{
    lz4_flex::block::decompress(data, size).ok()
}

// ---------------------------------------------------------------------------
// PacketMessage: the envelope around a packet-family body.
// ---------------------------------------------------------------------------

/// A packet-family body; each variant is resolved to a one-byte wire id by
/// a fixed table.
#[derive(Clone, Debug, PartialEq)]
pub enum PacketBody {
    Connect(ConnectPacket),
}

/// The mathematical model of a `PacketBody`.
pub ghost enum PacketBodyV {
    Connect(ConnectPacketV),
}

impl View for PacketBody {
    type V = PacketBodyV;

    open spec fn view(&self) -> PacketBodyV {
        match self {
            PacketBody::Connect(c) => PacketBodyV::Connect(c@),
        }
    }
}

/// The one-byte wire id assigned to a packet body's variant.
pub open spec fn packet_body_id(v: PacketBodyV) -> u8 {
    match v {
        PacketBodyV::Connect(_) => 3,
    }
}

/// The wire bytes of a packet body, before the envelope wraps them.
pub open spec fn packet_body_wire(v: PacketBodyV) -> Seq<u8> {
    match v {
        PacketBodyV::Connect(c) => connect_wire(c),
    }
}

/// The envelope owning exactly one packet-family body, plus a compression
/// flag.
#[derive(Clone, Debug, PartialEq)]
pub struct PacketMessage {
    packet: PacketBody,
    pub compressed: bool,
}

/// The mathematical model of a `PacketMessage`.
pub ghost struct PacketMessageV {
    pub packet: PacketBodyV,
    pub compressed: bool,
}

impl View for PacketMessage {
    type V = PacketMessageV;

    closed spec fn view(&self) -> PacketMessageV {
        PacketMessageV { packet: self.packet@, compressed: self.compressed }
    }
}

impl PacketMessageV {
    /// The body is well formed and every length that goes on the wire fits
    /// its 16-bit field, so the message survives the wire unchanged.
    pub open spec fn fits(self) -> bool {
        match self.packet {
            PacketBodyV::Connect(c) => c.wf() && c.fits() && (self.compressed ==> connect_wire(
                c,
            ).len() < 0x10000),
        }
    }
}

/// The wire bytes of a packet message: the body's id byte, the uncompressed
/// body length truncated to 16 bits, the compression flag, then the body,
/// LZ4-compressed where the flag is set.
pub open spec fn packet_message_wire(m: PacketMessageV) -> Seq<u8> {
    let body = packet_body_wire(m.packet);
    seq![packet_body_id(m.packet)] + u16_be((body.len() % 0x10000) as u16) + seq![
        bool_byte(m.compressed),
    ] + (if m.compressed {
        lz4_compressed(body)
    } else {
        body
    })
}

/// Dispatch of a decoded body by its id byte: id 3 is a connect packet; any
/// other id fails.
pub open spec fn packet_dispatch(id: u8, plain: Seq<u8>, compressed: bool) -> Option<
    PacketMessageV,
> {
    if id == 3 {
        match connect_parse(plain) {
            Some(c) => Some(PacketMessageV { packet: PacketBodyV::Connect(c), compressed }),
            None => None,
        }
    } else {
        None
    }
}

/// The packet message read back from the given bytes. The length field is
/// read but does not bound the body: the body is all bytes after the flag,
/// and the length only names the expected decompressed size.
pub open spec fn packet_message_parse(data: Seq<u8>) -> Option<PacketMessageV> {
    if data.len() < 4 {
        None
    } else {
        let id = data[0];
        let len = be16(data[1], data[2]) as int;
        let compressed = data[3] != 0;
        let body = data.skip(4);
        let plain = if compressed {
            lz4_decompressed(body, len)
        } else {
            Some(body)
        };
        match plain {
            Some(p) => packet_dispatch(id, p, compressed),
            None => None,
        }
    }
}

impl PacketMessage {
    /// Wraps a packet body in an envelope with the given compression flag.
    pub fn new(packet: PacketBody, compressed: bool) -> (m: Self)
        ensures
            m@ == (PacketMessageV { packet: packet@, compressed }),
    {
        Self { packet, compressed }
    }

    /// The one-byte wire id of the owned body's variant.
    pub fn id(&self) -> (r: u8)
        ensures
            r == packet_body_id(self@.packet),
    {
        match &self.packet {
            PacketBody::Connect(_) => 3,
        }
    }
}

impl Data for PacketMessage {
    open spec fn spec_wire(v: PacketMessageV) -> Seq<u8> {
        packet_message_wire(v)
    }

    open spec fn spec_parse(data: Seq<u8>) -> Option<PacketMessageV> {
        packet_message_parse(data)
    }

    fn serialize(&self, buf: &mut Writer)
        ensures
            self@.fits() ==> packet_message_parse(packet_message_wire(self@)) == Some(self@),
    {
        buf.u8(self.id());
        let mut packet_data = Writer::new();
        match &self.packet {
            PacketBody::Connect(p) => p.serialize(&mut packet_data),
        }
        let n: usize = packet_data.0.len();
        let len16 = #[verifier::truncate] (n as u16);
        proof {
            assert(n as u16 == (n % 0x10000) as u16) by (bit_vector);
        }
        buf.u16(len16);
        buf.bool(self.compressed);
        if self.compressed {
            let compressed_data = lz4_compress(packet_data.0.as_slice());
            buf.bytes(compressed_data.as_slice());
            proof {
                assert(buf@ =~= old(buf)@ + packet_message_wire(self@));
                if self@.fits() {
                    lemma_packet_round_trip_body(self@);
                    assert(packet_message_wire(self@).skip(4) =~= lz4_compressed(
                        packet_body_wire(self@.packet),
                    ));
                }
            }
        } else {
            buf.bytes(packet_data.0.as_slice());
            proof {
                assert(buf@ =~= old(buf)@ + packet_message_wire(self@));
                if self@.fits() {
                    lemma_packet_message_round_trip(self@);
                }
            }
        }
    }

    fn deserialize(data: &[u8]) -> (r: Option<Self>) {
        let mut reader = Reader::new(data);
        let id = match reader.u8() {
            Some(v) => v,
            None => {
                return None;
            },
        };
        let len = match reader.u16() {
            Some(v) => v,
            None => {
                return None;
            },
        };
        let compressed = match reader.bool() {
            Some(v) => v,
            None => {
                return None;
            },
        };
        let original_data = reader.bytes_remaining();
        if compressed {
            let decompressed = match lz4_decompress(original_data, len as usize) {
                Some(v) => v,
                None => {
                    return None;
                },
            };
            Self::dispatch(id, decompressed.as_slice(), compressed)
        } else {
            Self::dispatch(id, original_data, compressed)
        }
    }
}

impl PacketMessage {
    /// Resolves a decoded body by its id byte: id 3 is a connect packet; any
    /// other id is a decode failure.
    fn dispatch(id: u8, plain: &[u8], compressed: bool) -> (r: Option<PacketMessage>)
        ensures
            match r {
                Some(m) => packet_dispatch(id, plain@, compressed) == Some(m@),
                None => packet_dispatch(id, plain@, compressed) is None,
            },
    {
        if id == 3 {
            match ConnectPacket::deserialize(plain) {
                Some(c) => Some(
                    PacketMessage { packet: PacketBody::Connect(c), compressed },
                ),
                None => None,
            }
        } else {
            None
        }
    }
}

impl Message for PacketMessage {

}

/// Helper for the compressed round trip: the envelope's header fields read
/// back as written, so decoding hinges only on the decompressed body.
proof fn lemma_packet_round_trip_body(m: PacketMessageV)
    requires
        m.fits(),
        m.compressed,
        lz4_decompressed(lz4_compressed(packet_body_wire(m.packet)), packet_body_wire(
            m.packet,
        ).len() as int) == Some(packet_body_wire(m.packet)),
    ensures
        packet_message_parse(packet_message_wire(m)) == Some(m),
{
    let body = packet_body_wire(m.packet);
    let w = packet_message_wire(m);
    lemma_be16_round_trip((body.len() % 0x10000) as u16);
    assert(w[1] == u16_be((body.len() % 0x10000) as u16)[0] && w[2] == u16_be(
        (body.len() % 0x10000) as u16,
    )[1]);
    assert(be16(w[1], w[2]) as int == body.len() as int);
    assert(w.skip(4) =~= lz4_compressed(body));
    assert(w[3] == bool_byte(m.compressed) && w[3] != 0);
    match m.packet {
        PacketBodyV::Connect(c) => {
            lemma_connect_round_trip(c);
        },
    }
}

/// Round trip: an uncompressed packet message whose body is well formed and
/// whose text fields fit their length prefixes decodes from its own wire
/// bytes to the same value.
pub proof fn lemma_packet_message_round_trip(m: PacketMessageV)
    requires
        m.fits(),
        !m.compressed,
    ensures
        packet_message_parse(packet_message_wire(m)) == Some(m),
{
    let body = packet_body_wire(m.packet);
    let w = packet_message_wire(m);
    assert(w.skip(4) =~= body);
    assert(w[3] == bool_byte(m.compressed) && w[3] == 0);
    match m.packet {
        PacketBodyV::Connect(c) => {
            lemma_connect_round_trip(c);
        },
    }
}

// ---------------------------------------------------------------------------
// FrameworkMessage: the envelope around a framework-family body.
// ---------------------------------------------------------------------------

/// A framework-family body; the wire id is the leading byte of the variant's
/// own encoding.
#[derive(Clone, Debug, PartialEq, Eq, Structural)]
pub enum FrameworkBody {
    Discover(DiscoverHost),
    Udp(RegisterUDP),
    Tcp(RegisterTCP),
}

impl View for FrameworkBody {
    type V = FrameworkBody;

    open spec fn view(&self) -> FrameworkBody {
        *self
    }
}

/// The wire bytes of a framework body; each variant writes its own leading
/// discriminant byte.
pub open spec fn framework_body_wire(b: FrameworkBody) -> Seq<u8> {
    match b {
        FrameworkBody::Discover(d) => discover_host_wire(d),
        FrameworkBody::Udp(u) => register_udp_wire(u),
        FrameworkBody::Tcp(t) => register_tcp_wire(t),
    }
}

/// The envelope owning exactly one framework-family body.
#[derive(Clone, Debug, PartialEq)]
pub struct FrameworkMessage {
    inner: FrameworkBody,
}

/// The mathematical model of a `FrameworkMessage`.
pub ghost struct FrameworkMessageV {
    pub inner: FrameworkBody,
}

impl View for FrameworkMessage {
    type V = FrameworkMessageV;

    closed spec fn view(&self) -> FrameworkMessageV {
        FrameworkMessageV { inner: self.inner }
    }
}

/// The wire bytes of a framework message: the fixed marker 0xfe, then the
/// body's own encoding.
pub open spec fn framework_message_wire(m: FrameworkMessageV) -> Seq<u8> {
    seq![0xfeu8] + framework_body_wire(m.inner)
}

/// The framework message read back from the given bytes: the marker 0xfe,
/// then dispatch on the next byte: 1 is a host discovery, 3 a UDP
/// registration, 4 a TCP registration; anything else fails.
pub open spec fn framework_message_parse(data: Seq<u8>) -> Option<FrameworkMessageV> {
    if data.len() >= 2 && data[0] == 0xfe {
        if data[1] == 1 {
            Some(FrameworkMessageV { inner: FrameworkBody::Discover(DiscoverHost) })
        } else if data[1] == 3 {
            match register_udp_parse(data.skip(1)) {
                Some(u) => Some(FrameworkMessageV { inner: FrameworkBody::Udp(u) }),
                None => None,
            }
        } else if data[1] == 4 {
            match register_tcp_parse(data.skip(1)) {
                Some(t) => Some(FrameworkMessageV { inner: FrameworkBody::Tcp(t) }),
                None => None,
            }
        } else {
            None
        }
    } else {
        None
    }
}

impl FrameworkMessage {
    /// Wraps a framework body in its envelope.
    pub fn new(inner: FrameworkBody) -> (m: Self)
        ensures
            m@ == (FrameworkMessageV { inner }),
    {
        Self { inner }
    }
}

impl Data for FrameworkMessage {
    open spec fn spec_wire(v: FrameworkMessageV) -> Seq<u8> {
        framework_message_wire(v)
    }

    open spec fn spec_parse(data: Seq<u8>) -> Option<FrameworkMessageV> {
        framework_message_parse(data)
    }

    fn serialize(&self, buf: &mut Writer) {
        buf.u8(0xfe);
        match &self.inner {
            FrameworkBody::Discover(d) => d.serialize(buf),
            FrameworkBody::Udp(u) => u.serialize(buf),
            FrameworkBody::Tcp(t) => t.serialize(buf),
        }
        proof {
            assert(buf@ =~= old(buf)@ + framework_message_wire(self@));
        }
    }

    fn deserialize(data: &[u8]) -> (r: Option<Self>) {
        let mut reader = Reader::new(data);
        match reader.u8() {
            Some(b) => {
                if b != 0xfe {
                    return None;
                }
            },
            None => {
                return None;
            },
        }
        match reader.peek_u8() {
            Some(1) => Some(Self { inner: FrameworkBody::Discover(DiscoverHost) }),
            Some(3) => {
                match RegisterUDP::deserialize(reader.bytes_remaining()) {
                    Some(u) => Some(Self { inner: FrameworkBody::Udp(u) }),
                    None => None,
                }
            },
            Some(4) => {
                match RegisterTCP::deserialize(reader.bytes_remaining()) {
                    Some(t) => Some(Self { inner: FrameworkBody::Tcp(t) }),
                    None => None,
                }
            },
            _ => None,
        }
    }
}

impl Message for FrameworkMessage {

}

/// Round trip: a framework message decodes from its own wire bytes to the
/// same value.
pub proof fn lemma_framework_message_round_trip(m: FrameworkMessageV)
    ensures
        framework_message_parse(framework_message_wire(m)) == Some(m),
{
    let w = framework_message_wire(m);
    assert(w.skip(1) =~= framework_body_wire(m.inner));
    match m.inner {
        FrameworkBody::Discover(_) => {
        },
        FrameworkBody::Udp(u) => {
            lemma_register_udp_round_trip(u);
        },
        FrameworkBody::Tcp(t) => {
            lemma_register_tcp_round_trip(t);
        },
    }
}

// ---------------------------------------------------------------------------
// Top-level dispatch of one message's bytes.
// ---------------------------------------------------------------------------

/// A decoded top-level message of either family, for inspection.
#[derive(Clone, Debug, PartialEq)]
pub enum DecodedMessage {
    Packet(PacketMessage),
    Framework(FrameworkMessage),
}

/// The mathematical model of a `DecodedMessage`.
pub ghost enum DecodedMessageV {
    Packet(PacketMessageV),
    Framework(FrameworkMessageV),
}

impl View for DecodedMessage {
    type V = DecodedMessageV;

    open spec fn view(&self) -> DecodedMessageV {
        match self {
            DecodedMessage::Packet(m) => DecodedMessageV::Packet(m@),
            DecodedMessage::Framework(m) => DecodedMessageV::Framework(m@),
        }
    }
}

/// The top-level reading of one message's bytes: an empty slice fails; a
/// first byte 0xfe is a framework message; anything else is a packet
/// message.
pub open spec fn parse_message(data: Seq<u8>) -> Option<DecodedMessageV> {
    if data.len() == 0 {
        None
    } else if data[0] == 0xfe {
        match framework_message_parse(data) {
            Some(m) => Some(DecodedMessageV::Framework(m)),
            None => None,
        }
    } else {
        match packet_message_parse(data) {
            Some(m) => Some(DecodedMessageV::Packet(m)),
            None => None,
        }
    }
}

/// The top-level wire bytes of a decoded message: the bytes of its family's
/// envelope.
pub open spec fn message_wire(m: DecodedMessageV) -> Seq<u8> {
    match m {
        DecodedMessageV::Packet(p) => packet_message_wire(p),
        DecodedMessageV::Framework(f) => framework_message_wire(f),
    }
}

/// Round trip through the top-level dispatcher: a message of either family
/// reads back from its own wire bytes as the same value. A packet message is
/// covered here in its uncompressed form; the compressed form carries the
/// same guarantee as a postcondition of its `serialize`, where the
/// compressor's promise is in hand.
pub proof fn lemma_parse_message_round_trip(m: DecodedMessageV)
    requires
        match m {
            DecodedMessageV::Packet(p) => p.fits() && !p.compressed,
            DecodedMessageV::Framework(_) => true,
        },
    ensures
        parse_message(message_wire(m)) == Some(m),
{
    match m {
        DecodedMessageV::Packet(p) => {
            lemma_packet_message_round_trip(p);
            assert(message_wire(m)[0] == packet_body_id(p.packet));
        },
        DecodedMessageV::Framework(f) => {
            lemma_framework_message_round_trip(f);
            assert(message_wire(m)[0] == 0xfe);
        },
    }
}

/// Reads one message from a byte slice holding exactly one message, as a
/// datagram does.
pub fn parse_udp(data: &[u8]) -> (r: Option<DecodedMessage>)
    ensures
        match r {
            Some(m) => parse_message(data@) == Some(m@),
            None => parse_message(data@) is None,
        },
{
    if data.len() == 0 {
        None
    } else if data[0] == 0xfe {
        match FrameworkMessage::deserialize(data) {
            Some(m) => Some(DecodedMessage::Framework(m)),
            None => None,
        }
    } else {
        match PacketMessage::deserialize(data) {
            Some(m) => Some(DecodedMessage::Packet(m)),
            None => None,
        }
    }
}

/// The TCP framing of one message's bytes: a 16-bit big-endian length prefix
/// followed by the bytes; a length that does not fit 16 bits is truncated.
pub fn tcp_frame(message: &[u8]) -> (r: Vec<u8>)
    ensures
        r@ == u16_be((message@.len() % 0x10000) as u16) + message@,
{
    let mut framed = Writer::new();
    let n: usize = message.len();
    let len16 = #[verifier::truncate] (n as u16);
    proof {
        assert(n as u16 == (n % 0x10000) as u16) by (bit_vector);
    }
    framed.u16(len16);
    framed.bytes(message);
    framed.0
}

} // verus!
