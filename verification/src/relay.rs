use vstd::prelude::*;
use crate::data::{DecodedMessage, parse_message};

verus! {

// ---------------------------------------------------------------------------
// The relay's pure decisions: which peer a TCP chunk goes to, which address
// a UDP datagram goes to, and what each carries for decoding. The sockets
// themselves live outside the library; they hand chunks in and carry the
// decided forwards out.
// ---------------------------------------------------------------------------

/// A transport endpoint, as a plain value: the IP address widened to 128
/// bits, and the port.
#[derive(Clone, Copy, Debug, PartialEq, Eq, Structural)]
pub struct Addr {
    pub ip: u128,
    pub port: u16,
}

/// One side of the relayed session.
#[derive(Clone, Copy, Debug, PartialEq, Eq, Structural)]
pub enum Peer {
    Client,
    Server,
}

/// The peer on the other side.
pub open spec fn spec_opposite(p: Peer) -> Peer {
    match p {
        Peer::Client => Peer::Server,
        Peer::Server => Peer::Client,
    }
}

/// What the relay does with one TCP chunk.
#[derive(Debug)]
pub enum TcpRelayStep {
    /// The client stream reported end of data: the session is over.
    Close,
    /// Forward the chunk, byte for byte, to the given peer; `decoded` is
    /// what the chunk's payload (past the two-byte length prefix) decodes
    /// to, for inspection only.
    Forward { to: Peer, frame: Vec<u8>, decoded: Option<DecodedMessage> },
}

/// The payload of a TCP chunk: everything past the two-byte length prefix;
/// empty where the chunk is shorter than the prefix itself.
pub open spec fn tcp_payload(chunk: Seq<u8>) -> Seq<u8> {
    if chunk.len() >= 2 {
        chunk.skip(2)
    } else {
        Seq::<u8>::empty()
    }
}

/// Decides one TCP read: a zero-length read on the client leg closes the
/// session; any other chunk is forwarded verbatim to the opposite peer,
/// whether or not its payload decodes.
pub fn relay_tcp_step(from: Peer, chunk: &[u8]) -> (r: TcpRelayStep)
    ensures
        (r is Close) <==> (from == Peer::Client && chunk@.len() == 0),
        r matches TcpRelayStep::Forward { to, frame, decoded } ==> {
            &&& to == spec_opposite(from)
            &&& frame@ == chunk@
            &&& match decoded {
                Some(m) => parse_message(tcp_payload(chunk@)) == Some(m@),
                None => parse_message(tcp_payload(chunk@)) is None,
            }
        },
{
    if matches!(from, Peer::Client) && chunk.len() == 0 {
        return TcpRelayStep::Close;
    }
    let to = match from {
        Peer::Client => Peer::Server,
        Peer::Server => Peer::Client,
    };
    let frame = vstd::slice::slice_to_vec(chunk);
    let decoded = if chunk.len() >= 2 {
        let payload = vstd::slice::slice_subrange(chunk, 2, chunk.len());
        crate::data::parse_udp(payload)
    } else {
        proof {
            assert(tcp_payload(chunk@) =~= Seq::<u8>::empty());
        }
        None
    };
    proof {
        if chunk@.len() >= 2 {
            assert(chunk@.subrange(2, chunk@.len() as int) =~= tcp_payload(chunk@));
        }
    }
    TcpRelayStep::Forward { to, frame, decoded }
}

/// What the relay does with one UDP datagram.
#[derive(Debug)]
pub struct UdpRelayStep {
    /// Where the datagram is forwarded.
    pub to: Addr,
    /// The forwarded bytes: the datagram, byte for byte.
    pub forward: Vec<u8>,
    /// What the whole datagram decodes to, for inspection only.
    pub decoded: Option<DecodedMessage>,
}

/// Decides one UDP receive: a datagram whose source is the configured server
/// address is server-origin and goes to the client; any other source is
/// client-origin and goes to the server. The whole datagram is forwarded
/// verbatim and decoded as one message.
pub fn relay_udp_step(source: Addr, server: Addr, client: Addr, datagram: &[u8]) -> (r:
    UdpRelayStep)
    ensures
        r.to == (if source == server {
            client
        } else {
            server
        }),
        r.forward@ == datagram@,
        match r.decoded {
            Some(m) => parse_message(datagram@) == Some(m@),
            None => parse_message(datagram@) is None,
        },
{
    let to = if source == server {
        client
    } else {
        server
    };
    let forward = vstd::slice::slice_to_vec(datagram);
    let decoded = crate::data::parse_udp(datagram);
    UdpRelayStep { to, forward, decoded }
}

} // verus!
