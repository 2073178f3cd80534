use minet::data::{DecodedMessage, FrameworkBody, FrameworkMessage};
use minet::packets::RegisterUDP;
use minet::relay::{relay_tcp_step, relay_udp_step, Addr, Peer, TcpRelayStep};

fn server() -> Addr {
    Addr { ip: 0x7f000001, port: 6567 }
}

fn client() -> Addr {
    Addr { ip: 0x7f000001, port: 51234 }
}

#[test]
fn tcp_frame_forwarded_verbatim_when_decodable() {
    // A two-byte length prefix, then a framework message.
    let chunk = [0u8, 6, 0xfe, 3, 0, 0, 0, 5];
    match relay_tcp_step(Peer::Client, &chunk) {
        TcpRelayStep::Forward { to, frame, decoded } => {
            assert_eq!(to, Peer::Server);
            assert_eq!(frame, chunk.to_vec());
            match decoded {
                Some(DecodedMessage::Framework(m)) => {
                    assert_eq!(m, FrameworkMessage::new(FrameworkBody::Udp(RegisterUDP { id: 5 })));
                },
                other => panic!("expected a framework message, got {:?}", other),
            }
        },
        TcpRelayStep::Close => panic!("unexpected close"),
    }
}

#[test]
fn tcp_frame_forwarded_verbatim_when_garbage() {
    // The payload does not decode; the frame is still forwarded byte for
    // byte.
    let chunk = [0u8, 3, 9, 9, 9];
    match relay_tcp_step(Peer::Server, &chunk) {
        TcpRelayStep::Forward { to, frame, decoded } => {
            assert_eq!(to, Peer::Client);
            assert_eq!(frame, chunk.to_vec());
            assert!(decoded.is_none());
        },
        TcpRelayStep::Close => panic!("unexpected close"),
    }
}

#[test]
fn tcp_zero_read_from_client_closes() {
    assert!(matches!(relay_tcp_step(Peer::Client, &[]), TcpRelayStep::Close));
    // A zero-length read on the server leg does not close the session.
    assert!(matches!(relay_tcp_step(Peer::Server, &[]), TcpRelayStep::Forward { .. }));
}

#[test]
fn udp_datagram_from_server_goes_to_client() {
    let datagram = [0xfeu8, 1];
    let step = relay_udp_step(server(), server(), client(), &datagram);
    assert_eq!(step.to, client());
    assert_eq!(step.forward, datagram.to_vec());
    assert!(step.decoded.is_some());
}

#[test]
fn udp_datagram_from_anyone_else_goes_to_server() {
    let datagram = [0xfeu8, 1];
    let other = Addr { ip: 0x0a000001, port: 4242 };
    let step = relay_udp_step(other, server(), client(), &datagram);
    assert_eq!(step.to, server());
    assert_eq!(step.forward, datagram.to_vec());

    let from_client = relay_udp_step(client(), server(), client(), &datagram);
    assert_eq!(from_client.to, server());
}
