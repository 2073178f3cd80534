use vstd::prelude::*;
use vstd::utf8::encode_utf8;
use crate::data::Data;
use crate::stream::{Writer, Reader, u32_be, be16, be32, bool_byte, str_encoding, str_field_chars,
    lemma_be16_round_trip, lemma_be32_round_trip};

verus! {

/// Data that can be embedded inside a `PacketMessage` to constitute a
/// `Message`.
pub trait Packet: Data {

}

/// Data that can be embedded inside a `FrameworkMessage` to constitute a
/// `Message`.
pub trait Framework: Data {

}

// ---------------------------------------------------------------------------
// Text fields inside a packet body: a presence byte that must equal 1,
// then a length-prefixed text field.
// ---------------------------------------------------------------------------

/// A length-prefixed text field read at `pos`: the decoded characters and
/// the position just past the field.
pub open spec fn spec_read_str(data: Seq<u8>, pos: int) -> Option<(Seq<char>, int)> {
    if pos + 2 <= data.len() {
        let n = be16(data[pos], data[pos + 1]) as int;
        if pos + 2 + n <= data.len() {
            Some((str_field_chars(data.subrange(pos + 2, pos + 2 + n)), pos + 2 + n))
        } else {
            None
        }
    } else {
        None
    }
}

/// A text field preceded by its presence byte, which must equal 1.
pub open spec fn spec_flag_str(data: Seq<u8>, pos: int) -> Option<(Seq<char>, int)> {
    if 0 <= pos < data.len() && data[pos] == 1u8 {
        spec_read_str(data, pos + 1)
    } else {
        None
    }
}

/// Reads a presence byte that must equal 1, then a text field, into an owned
/// string.
fn read_flag_str(r: &mut Reader) -> (res: Option<String>)
    requires
        old(r).wf(),
    ensures
        final(r).wf(),
        final(r).all_bytes() == old(r).all_bytes(),
        match res {
            Some(s) => spec_flag_str(old(r).all_bytes(), old(r).cursor()) matches Some(p) && p.0
                == s@ && final(r).cursor() == p.1,
            None => spec_flag_str(old(r).all_bytes(), old(r).cursor()) is None,
        },
{
    match r.u8() {
        None => None,
        Some(flag) => {
            if flag != 1 {
                None
            } else {
                match r.str() {
                    None => None,
                    Some(s) => Some(s.to_owned()),
                }
            }
        },
    }
}

/// The wire form of a packet-body text field: presence byte 1, then the
/// length-prefixed text.
pub open spec fn flag_str_encoding(s: Seq<char>) -> Seq<u8> {
    seq![1u8] + str_encoding(s)
}

/// A text field whose encoding sits at `pos` inside `data` reads back as the
/// characters it was made from.
proof fn lemma_read_str_at(data: Seq<u8>, pos: int, s: Seq<char>)
    requires
        0 <= pos,
        encode_utf8(s).len() < 0x10000,
        pos + 2 + encode_utf8(s).len() <= data.len(),
        data.subrange(pos, pos + 2 + encode_utf8(s).len() as int) == str_encoding(s),
    ensures
        spec_read_str(data, pos) == Some((s, pos + 2 + encode_utf8(s).len() as int)),
{
    let n = encode_utf8(s).len() as int;
    let enc = str_encoding(s);
    let piece = data.subrange(pos, pos + 2 + n);
    assert(data[pos] == piece[0]);
    assert(data[pos + 1] == piece[1]);
    assert(enc[0] == u16_be_first(s));
    lemma_be16_round_trip((n % 0x10000) as u16);
    assert(be16(data[pos], data[pos + 1]) as int == n);
    assert(data.subrange(pos + 2, pos + 2 + n) =~= enc.subrange(2, 2 + n));
    assert(enc.subrange(2, 2 + n) =~= encode_utf8(s));
    vstd::utf8::encode_utf8_valid_utf8(s);
    vstd::utf8::encode_utf8_decode_utf8(s);
}

/// The first byte of a text field's length prefix.
pub open spec fn u16_be_first(s: Seq<char>) -> u8 {
    crate::stream::u16_be((encode_utf8(s).len() % 0x10000) as u16)[0]
}

/// A presence-flagged text field whose encoding sits at `pos` reads back as
/// the characters it was made from.
proof fn lemma_flag_str_at(data: Seq<u8>, pos: int, s: Seq<char>)
    requires
        0 <= pos,
        encode_utf8(s).len() < 0x10000,
        pos + 3 + encode_utf8(s).len() <= data.len(),
        data.subrange(pos, pos + 3 + encode_utf8(s).len() as int) == flag_str_encoding(s),
    ensures
        spec_flag_str(data, pos) == Some((s, pos + 3 + encode_utf8(s).len() as int)),
{
    let n = encode_utf8(s).len() as int;
    let piece = data.subrange(pos, pos + 3 + n);
    assert(data[pos] == piece[0]);
    assert(data.subrange(pos + 1, pos + 1 + 2 + n) =~= piece.subrange(1, 3 + n));
    assert(piece.subrange(1, 3 + n) =~= str_encoding(s));
    lemma_read_str_at(data, pos + 1, s);
}

// ---------------------------------------------------------------------------
// ConnectPacket: the application-level connection handshake.
// ---------------------------------------------------------------------------

/// The connection handshake packet. The uuid is carried as its raw 16 bytes.
#[derive(Clone, Debug, PartialEq)]
pub struct ConnectPacket {
    pub version_build: u32,
    pub version_type: String,
    pub player_name: String,
    pub locale: String,
    pub usid: String,
    pub uuid: Vec<u8>,
    pub mobile: bool,
    pub color: u32,
}

/// The mathematical model of a `ConnectPacket`.
pub ghost struct ConnectPacketV {
    pub version_build: u32,
    pub version_type: Seq<char>,
    pub player_name: Seq<char>,
    pub locale: Seq<char>,
    pub usid: Seq<char>,
    pub uuid: Seq<u8>,
    pub mobile: bool,
    pub color: u32,
}

impl View for ConnectPacket {
    type V = ConnectPacketV;

    open spec fn view(&self) -> ConnectPacketV {
        ConnectPacketV {
            version_build: self.version_build,
            version_type: self.version_type@,
            player_name: self.player_name@,
            locale: self.locale@,
            usid: self.usid@,
            uuid: self.uuid@,
            mobile: self.mobile,
            color: self.color,
        }
    }
}

impl ConnectPacketV {
    /// A well-formed connect packet carries exactly 16 uuid bytes.
    pub open spec fn wf(self) -> bool {
        self.uuid.len() == 16
    }

    /// Each text field's byte length fits the 16-bit length prefix, so the
    /// packet survives the wire unchanged.
    pub open spec fn fits(self) -> bool {
        &&& encode_utf8(self.version_type).len() < 0x10000
        &&& encode_utf8(self.player_name).len() < 0x10000
        &&& encode_utf8(self.locale).len() < 0x10000
        &&& encode_utf8(self.usid).len() < 0x10000
    }
}

/// The wire bytes of a connect packet: version build, four presence-flagged
/// text fields, 16 uuid bytes, the mobile flag, the color, and a trailing
/// zero marking the absence of mods.
pub open spec fn connect_wire(v: ConnectPacketV) -> Seq<u8> {
    u32_be(v.version_build) + flag_str_encoding(v.version_type) + flag_str_encoding(v.player_name)
        + flag_str_encoding(v.locale) + flag_str_encoding(v.usid) + v.uuid + seq![
        bool_byte(v.mobile),
    ] + u32_be(v.color) + seq![0u8]
}

/// The connect packet read back from the given bytes; anything after the
/// color field is ignored.
pub open spec fn connect_parse(data: Seq<u8>) -> Option<ConnectPacketV> {
    if data.len() < 4 {
        None
    } else {
        let vb = be32(data[0], data[1], data[2], data[3]);
        match spec_flag_str(data, 4) {
            None => None,
            Some((vt, p1)) => match spec_flag_str(data, p1) {
                None => None,
                Some((pn, p2)) => match spec_flag_str(data, p2) {
                    None => None,
                    Some((lc, p3)) => match spec_flag_str(data, p3) {
                        None => None,
                        Some((us, p4)) => {
                            if p4 + 16 + 5 <= data.len() {
                                Some(
                                    ConnectPacketV {
                                        version_build: vb,
                                        version_type: vt,
                                        player_name: pn,
                                        locale: lc,
                                        usid: us,
                                        uuid: data.subrange(p4, p4 + 16),
                                        mobile: data[p4 + 16] != 0,
                                        color: be32(
                                            data[p4 + 17],
                                            data[p4 + 18],
                                            data[p4 + 19],
                                            data[p4 + 20],
                                        ),
                                    },
                                )
                            } else {
                                None
                            }
                        },
                    },
                },
            },
        }
    }
}

impl Data for ConnectPacket {
    open spec fn spec_wire(v: ConnectPacketV) -> Seq<u8> {
        connect_wire(v)
    }

    open spec fn spec_parse(data: Seq<u8>) -> Option<ConnectPacketV> {
        connect_parse(data)
    }

    fn serialize(&self, buf: &mut Writer) {
        buf.u32(self.version_build);
        buf.u8(1);
        buf.str(self.version_type.as_str());
        buf.u8(1);
        buf.str(self.player_name.as_str());
        buf.u8(1);
        buf.str(self.locale.as_str());
        buf.u8(1);
        buf.str(self.usid.as_str());
        buf.bytes(self.uuid.as_slice());
        buf.bool(self.mobile);
        buf.u32(self.color);
        buf.u8(0);
        proof {
            assert(buf@ =~= old(buf)@ + connect_wire(self@));
        }
    }

    fn deserialize(data: &[u8]) -> (r: Option<Self>) {
        let mut reader = Reader::new(data);
        let version_build = match reader.u32() {
            Some(v) => v,
            None => {
                return None;
            },
        };
        let version_type = match read_flag_str(&mut reader) {
            Some(s) => s,
            None => {
                return None;
            },
        };
        let player_name = match read_flag_str(&mut reader) {
            Some(s) => s,
            None => {
                return None;
            },
        };
        let locale = match read_flag_str(&mut reader) {
            Some(s) => s,
            None => {
                return None;
            },
        };
        let usid = match read_flag_str(&mut reader) {
            Some(s) => s,
            None => {
                return None;
            },
        };
        let uuid = match reader.bytes(16) {
            Some(b) => vstd::slice::slice_to_vec(b),
            None => {
                return None;
            },
        };
        let mobile = match reader.bool() {
            Some(b) => b,
            None => {
                return None;
            },
        };
        let color = match reader.u32() {
            Some(v) => v,
            None => {
                return None;
            },
        };
        Some(
            ConnectPacket {
                version_build,
                version_type,
                player_name,
                locale,
                usid,
                uuid,
                mobile,
                color,
            },
        )
    }
}

impl Packet for ConnectPacket {

}

/// Round trip: a well-formed connect packet whose text fields fit their
/// length prefixes decodes from its own wire bytes to the same value.
#[verifier::rlimit(100)]
#[verifier::spinoff_prover]
pub proof fn lemma_connect_round_trip(v: ConnectPacketV)
    requires
        v.wf(),
        v.fits(),
    ensures
        connect_parse(connect_wire(v)) == Some(v),
{
    let w = connect_wire(v);
    let n1 = encode_utf8(v.version_type).len() as int;
    let n2 = encode_utf8(v.player_name).len() as int;
    let n3 = encode_utf8(v.locale).len() as int;
    let n4 = encode_utf8(v.usid).len() as int;
    let p1 = 4 + 3 + n1;
    let p2 = p1 + 3 + n2;
    let p3 = p2 + 3 + n3;
    let p4 = p3 + 3 + n4;
    assert(w.len() == p4 + 16 + 5 + 1);
    assert(w[0] == u32_be(v.version_build)[0] && w[1] == u32_be(v.version_build)[1] && w[2]
        == u32_be(v.version_build)[2] && w[3] == u32_be(v.version_build)[3]);
    lemma_be32_round_trip(v.version_build);
    assert(w.subrange(4, 4 + 3 + n1) =~= flag_str_encoding(v.version_type));
    lemma_flag_str_at(w, 4, v.version_type);
    assert(w.subrange(p1, p1 + 3 + n2) =~= flag_str_encoding(v.player_name));
    lemma_flag_str_at(w, p1, v.player_name);
    assert(w.subrange(p2, p2 + 3 + n3) =~= flag_str_encoding(v.locale));
    lemma_flag_str_at(w, p2, v.locale);
    assert(w.subrange(p3, p3 + 3 + n4) =~= flag_str_encoding(v.usid));
    lemma_flag_str_at(w, p3, v.usid);
    assert(w.subrange(p4, p4 + 16) =~= v.uuid);
    assert(w[p4 + 16] == bool_byte(v.mobile));
    assert(w[p4 + 17] == u32_be(v.color)[0] && w[p4 + 18] == u32_be(v.color)[1] && w[p4 + 19]
        == u32_be(v.color)[2] && w[p4 + 20] == u32_be(v.color)[3]);
    lemma_be32_round_trip(v.color);
    assert(bool_byte(v.mobile) != 0 <==> v.mobile);
    assert(connect_parse(w) == Some(v));
}

// ---------------------------------------------------------------------------
// RegisterUDP, RegisterTCP, DiscoverHost: the framework-family variants.
// ---------------------------------------------------------------------------

/// Registers the UDP leg of a connection under the id the server assigned.
#[derive(Clone, Debug, PartialEq, Eq, Structural)]
pub struct RegisterUDP {
    pub id: u32,
}

impl View for RegisterUDP {
    type V = RegisterUDP;

    open spec fn view(&self) -> RegisterUDP {
        *self
    }
}

/// The wire bytes of a UDP registration: discriminant 3, then the id.
pub open spec fn register_udp_wire(v: RegisterUDP) -> Seq<u8> {
    seq![3u8] + u32_be(v.id)
}

/// The UDP registration read back from the given bytes; anything after the
/// id is ignored.
pub open spec fn register_udp_parse(data: Seq<u8>) -> Option<RegisterUDP> {
    if data.len() >= 5 && data[0] == 3 {
        Some(RegisterUDP { id: be32(data[1], data[2], data[3], data[4]) })
    } else {
        None
    }
}

impl Data for RegisterUDP {
    open spec fn spec_wire(v: RegisterUDP) -> Seq<u8> {
        register_udp_wire(v)
    }

    open spec fn spec_parse(data: Seq<u8>) -> Option<RegisterUDP> {
        register_udp_parse(data)
    }

    fn serialize(&self, buf: &mut Writer) {
        buf.u8(3);
        buf.u32(self.id);
        proof {
            assert(buf@ =~= old(buf)@ + register_udp_wire(self@));
        }
    }

    fn deserialize(data: &[u8]) -> (r: Option<Self>) {
        let mut reader = Reader::new(data);
        match reader.u8() {
            Some(d) => {
                if d != 3 {
                    return None;
                }
            },
            None => {
                return None;
            },
        }
        let id = match reader.u32() {
            Some(v) => v,
            None => {
                return None;
            },
        };
        Some(RegisterUDP { id })
    }
}

impl Framework for RegisterUDP {

}

/// Round trip: a UDP registration decodes from its own wire bytes to the
/// same value.
pub proof fn lemma_register_udp_round_trip(v: RegisterUDP)
    ensures
        register_udp_parse(register_udp_wire(v)) == Some(v),
{
    let w = register_udp_wire(v);
    assert(w[1] == u32_be(v.id)[0] && w[2] == u32_be(v.id)[1] && w[3] == u32_be(v.id)[2] && w[4]
        == u32_be(v.id)[3]);
    lemma_be32_round_trip(v.id);
}

/// Registers the TCP leg of a connection under the id the server assigned.
#[derive(Clone, Debug, PartialEq, Eq, Structural)]
pub struct RegisterTCP {
    pub id: u32,
}

impl View for RegisterTCP {
    type V = RegisterTCP;

    open spec fn view(&self) -> RegisterTCP {
        *self
    }
}

/// The wire bytes of a TCP registration: discriminant 4, then the id.
pub open spec fn register_tcp_wire(v: RegisterTCP) -> Seq<u8> {
    seq![4u8] + u32_be(v.id)
}

/// The TCP registration read back from the given bytes; anything after the
/// id is ignored.
pub open spec fn register_tcp_parse(data: Seq<u8>) -> Option<RegisterTCP> {
    if data.len() >= 5 && data[0] == 4 {
        Some(RegisterTCP { id: be32(data[1], data[2], data[3], data[4]) })
    } else {
        None
    }
}

impl Data for RegisterTCP {
    open spec fn spec_wire(v: RegisterTCP) -> Seq<u8> {
        register_tcp_wire(v)
    }

    open spec fn spec_parse(data: Seq<u8>) -> Option<RegisterTCP> {
        register_tcp_parse(data)
    }

    fn serialize(&self, buf: &mut Writer) {
        buf.u8(4);
        buf.u32(self.id);
        proof {
            assert(buf@ =~= old(buf)@ + register_tcp_wire(self@));
        }
    }

    fn deserialize(data: &[u8]) -> (r: Option<Self>) {
        let mut reader = Reader::new(data);
        match reader.u8() {
            Some(d) => {
                if d != 4 {
                    return None;
                }
            },
            None => {
                return None;
            },
        }
        let id = match reader.u32() {
            Some(v) => v,
            None => {
                return None;
            },
        };
        Some(RegisterTCP { id })
    }
}

impl Framework for RegisterTCP {

}

/// Round trip: a TCP registration decodes from its own wire bytes to the
/// same value.
pub proof fn lemma_register_tcp_round_trip(v: RegisterTCP)
    ensures
        register_tcp_parse(register_tcp_wire(v)) == Some(v),
{
    let w = register_tcp_wire(v);
    assert(w[1] == u32_be(v.id)[0] && w[2] == u32_be(v.id)[1] && w[3] == u32_be(v.id)[2] && w[4]
        == u32_be(v.id)[3]);
    lemma_be32_round_trip(v.id);
}

/// Asks hosts on the local network to announce themselves; carries no
/// fields.
#[derive(Clone, Debug, PartialEq, Eq, Structural)]
pub struct DiscoverHost;

impl View for DiscoverHost {
    type V = DiscoverHost;

    open spec fn view(&self) -> DiscoverHost {
        *self
    }
}

/// The wire bytes of a host discovery: just its discriminant 1.
pub open spec fn discover_host_wire(v: DiscoverHost) -> Seq<u8> {
    seq![1u8]
}

/// The host discovery read back from the given bytes; anything after the
/// discriminant is ignored.
pub open spec fn discover_host_parse(data: Seq<u8>) -> Option<DiscoverHost> {
    if data.len() >= 1 && data[0] == 1 {
        Some(DiscoverHost)
    } else {
        None
    }
}

impl Data for DiscoverHost {
    open spec fn spec_wire(v: DiscoverHost) -> Seq<u8> {
        discover_host_wire(v)
    }

    open spec fn spec_parse(data: Seq<u8>) -> Option<DiscoverHost> {
        discover_host_parse(data)
    }

    fn serialize(&self, buf: &mut Writer) {
        buf.u8(1);
        proof {
            assert(buf@ =~= old(buf)@ + discover_host_wire(self@));
        }
    }

    fn deserialize(data: &[u8]) -> (r: Option<Self>) {
        let mut reader = Reader::new(data);
        match reader.u8() {
            Some(d) => {
                if d != 1 {
                    return None;
                }
            },
            None => {
                return None;
            },
        }
        Some(DiscoverHost)
    }
}

impl Framework for DiscoverHost {

}

/// Round trip: a host discovery decodes from its own wire bytes to the same
/// value.
pub proof fn lemma_discover_host_round_trip(v: DiscoverHost)
    ensures
        discover_host_parse(discover_host_wire(v)) == Some(v),
{
}

} // verus!
