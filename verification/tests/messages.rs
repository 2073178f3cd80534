use minet::data::{Data, DecodedMessage, FrameworkBody, FrameworkMessage, PacketBody,
    PacketMessage, parse_udp, tcp_frame};
use minet::packets::{ConnectPacket, DiscoverHost, RegisterTCP, RegisterUDP};
use minet::Writer;

#[test]
fn test_framework_message() {
    assert!(FrameworkMessage::deserialize(&[0xfe, 0x1]).is_some());
    assert!(FrameworkMessage::deserialize(&[0xfe, 0x3, 0, 0, 0, 5]).is_some());
    assert!(FrameworkMessage::deserialize(&[0xfe, 0x4, 0, 0, 0, 5]).is_some());
}

#[test]
fn test_packet_message() {
    let data = &[
        0x03, 0x00, 0x44, 0x01, 0xf0, 0x35, 0x00, 0x00, 0x00, 0x87, 0x01, 0x00, 0x08, 0x6f, 0x66,
        0x66, 0x69, 0x63, 0x69, 0x61, 0x6c, 0x01, 0x00, 0x05, 0x61, 0x6c, 0x6c, 0x65, 0x6e, 0x01,
        0x00, 0x05, 0x65, 0x6e, 0x5f, 0x55, 0x53, 0x01, 0x00, 0x0c, 0x79, 0x33, 0x2f, 0x70, 0x33,
        0x58, 0x37, 0x77, 0x45, 0x74, 0x6b, 0x3d, 0x4a, 0xef, 0x2f, 0x79, 0x87, 0x17, 0x4f, 0x99,
        0x00, 0x00, 0x00, 0x00, 0xbd, 0x7a, 0xa1, 0xb2, 0x00, 0xff, 0x76, 0xa6, 0xff, 0x00,
    ];
    assert!(PacketMessage::deserialize(data).is_some());
}

#[test]
fn framework_dispatch_exact_values() {
    let discover = FrameworkMessage::deserialize(&[0xfe, 1]).unwrap();
    assert_eq!(discover, FrameworkMessage::new(FrameworkBody::Discover(DiscoverHost)));

    let udp = FrameworkMessage::deserialize(&[0xfe, 3, 0, 0, 0, 5]).unwrap();
    assert_eq!(udp, FrameworkMessage::new(FrameworkBody::Udp(RegisterUDP { id: 5 })));

    let tcp = FrameworkMessage::deserialize(&[0xfe, 4, 0, 0, 0, 5]).unwrap();
    assert_eq!(tcp, FrameworkMessage::new(FrameworkBody::Tcp(RegisterTCP { id: 5 })));
}

#[test]
fn framework_dispatch_failures() {
    assert!(FrameworkMessage::deserialize(&[0xfe, 99]).is_none());
    assert!(FrameworkMessage::deserialize(&[]).is_none());
    assert!(FrameworkMessage::deserialize(&[0xfe]).is_none());
    assert!(FrameworkMessage::deserialize(&[0x00, 1]).is_none());
    // A registration whose id field is cut short fails too.
    assert!(FrameworkMessage::deserialize(&[0xfe, 3, 0, 0]).is_none());
}

fn sample_connect() -> ConnectPacket {
    ConnectPacket {
        version_build: 135,
        version_type: "official".to_owned(),
        player_name: "allen".to_owned(),
        locale: "en_US".to_owned(),
        usid: "y3/p3X7wEtk=".to_owned(),
        uuid: vec![
            0x4a, 0xef, 0x2f, 0x79, 0x87, 0x17, 0x4f, 0x99, 0x00, 0x00, 0x00, 0x00, 0xbd, 0x7a,
            0xa1, 0xb2,
        ],
        mobile: false,
        color: 0xff76a6ff,
    }
}

#[test]
fn packet_message_fixture_exact_fields() {
    let data = &[
        0x03, 0x00, 0x44, 0x01, 0xf0, 0x35, 0x00, 0x00, 0x00, 0x87, 0x01, 0x00, 0x08, 0x6f, 0x66,
        0x66, 0x69, 0x63, 0x69, 0x61, 0x6c, 0x01, 0x00, 0x05, 0x61, 0x6c, 0x6c, 0x65, 0x6e, 0x01,
        0x00, 0x05, 0x65, 0x6e, 0x5f, 0x55, 0x53, 0x01, 0x00, 0x0c, 0x79, 0x33, 0x2f, 0x70, 0x33,
        0x58, 0x37, 0x77, 0x45, 0x74, 0x6b, 0x3d, 0x4a, 0xef, 0x2f, 0x79, 0x87, 0x17, 0x4f, 0x99,
        0x00, 0x00, 0x00, 0x00, 0xbd, 0x7a, 0xa1, 0xb2, 0x00, 0xff, 0x76, 0xa6, 0xff, 0x00,
    ];
    let m = PacketMessage::deserialize(data).unwrap();
    assert_eq!(m, PacketMessage::new(PacketBody::Connect(sample_connect()), true));
}

#[test]
fn packet_message_unknown_id_fails() {
    // Same header shape, but an id byte of 0 or any unregistered id fails.
    assert!(PacketMessage::deserialize(&[0x00, 0x00, 0x02, 0x00, 0xab, 0xcd]).is_none());
    assert!(PacketMessage::deserialize(&[0x07, 0x00, 0x02, 0x00, 0xab, 0xcd]).is_none());
    // Too short for the envelope header.
    assert!(PacketMessage::deserialize(&[0x03, 0x00, 0x44]).is_none());
    assert!(PacketMessage::deserialize(&[]).is_none());
}

#[test]
fn packet_message_bad_compression_fails() {
    // Compressed flag set, but the body is not a valid LZ4 block.
    assert!(PacketMessage::deserialize(&[0x03, 0x00, 0x10, 0x01, 0xff, 0xff, 0xff]).is_none());
    // Compressed flag set with an empty body.
    assert!(PacketMessage::deserialize(&[0x03, 0x00, 0x10, 0x01]).is_none());
}

#[test]
fn connect_packet_round_trip_exact() {
    let p = sample_connect();
    let mut buf = Writer::new();
    p.serialize(&mut buf);
    let q = ConnectPacket::deserialize(&buf.0).unwrap();
    assert_eq!(p, q);
}

#[test]
fn packet_message_round_trip_uncompressed() {
    let m = PacketMessage::new(PacketBody::Connect(sample_connect()), false);
    let mut buf = Writer::new();
    m.serialize(&mut buf);
    let d = PacketMessage::deserialize(&buf.0).unwrap();
    assert_eq!(m, d);
}

#[test]
fn packet_message_round_trip_compressed() {
    // The compressed path drives the body through the real LZ4 block
    // compressor and back.
    let m = PacketMessage::new(PacketBody::Connect(sample_connect()), true);
    let mut buf = Writer::new();
    m.serialize(&mut buf);
    let d = PacketMessage::deserialize(&buf.0).unwrap();
    assert_eq!(m, d);
}

#[test]
fn framework_message_round_trip_exact() {
    let cases = vec![
        FrameworkMessage::new(FrameworkBody::Discover(DiscoverHost)),
        FrameworkMessage::new(FrameworkBody::Udp(RegisterUDP { id: 0xdeadbeef })),
        FrameworkMessage::new(FrameworkBody::Tcp(RegisterTCP { id: 0 })),
    ];
    for m in cases {
        let mut buf = Writer::new();
        m.serialize(&mut buf);
        let d = FrameworkMessage::deserialize(&buf.0).unwrap();
        assert_eq!(m, d);
    }
}

#[test]
fn register_round_trip_exact() {
    let u = RegisterUDP { id: 77 };
    let mut buf = Writer::new();
    u.serialize(&mut buf);
    assert_eq!(buf.0, vec![3, 0, 0, 0, 77]);
    assert_eq!(RegisterUDP::deserialize(&buf.0).unwrap(), u);

    let t = RegisterTCP { id: 0x01020304 };
    let mut buf = Writer::new();
    t.serialize(&mut buf);
    assert_eq!(buf.0, vec![4, 1, 2, 3, 4]);
    assert_eq!(RegisterTCP::deserialize(&buf.0).unwrap(), t);

    let d = DiscoverHost;
    let mut buf = Writer::new();
    d.serialize(&mut buf);
    assert_eq!(buf.0, vec![1]);
    assert_eq!(DiscoverHost::deserialize(&buf.0).unwrap(), d);
}

#[test]
fn register_wrong_discriminant_fails() {
    assert!(RegisterUDP::deserialize(&[4, 0, 0, 0, 5]).is_none());
    assert!(RegisterTCP::deserialize(&[3, 0, 0, 0, 5]).is_none());
    assert!(DiscoverHost::deserialize(&[2]).is_none());
    assert!(DiscoverHost::deserialize(&[]).is_none());
}

#[test]
fn parse_udp_dispatch() {
    assert!(parse_udp(&[]).is_none());
    match parse_udp(&[0xfe, 1]) {
        Some(DecodedMessage::Framework(m)) => {
            assert_eq!(m, FrameworkMessage::new(FrameworkBody::Discover(DiscoverHost)));
        },
        other => panic!("expected a framework message, got {:?}", other),
    }
    let m = PacketMessage::new(PacketBody::Connect(sample_connect()), false);
    let mut buf = Writer::new();
    m.serialize(&mut buf);
    match parse_udp(&buf.0) {
        Some(DecodedMessage::Packet(p)) => assert_eq!(p, m),
        other => panic!("expected a packet message, got {:?}", other),
    }
    assert!(parse_udp(&[9, 9, 9]).is_none());
}

#[test]
fn tcp_frame_prefixes_length() {
    let framed = tcp_frame(&[0xfe, 1]);
    assert_eq!(framed, vec![0, 2, 0xfe, 1]);
    let empty = tcp_frame(&[]);
    assert_eq!(empty, vec![0, 0]);
}

#[test]
fn packet_message_id_table() {
    let m = PacketMessage::new(PacketBody::Connect(sample_connect()), false);
    assert_eq!(m.id(), 3);
}
