use minet::data::Data;
use minet::packets::ConnectPacket;
use minet::Writer;

#[test]
fn test_connect_packet() {
    let data = &[
        0, 0, 0, 135, 1, 0, 8, 111, 102, 102, 105, 99, 105, 97, 108, 1, 0, 5, 97, 108, 108, 101,
        110, 1, 0, 5, 101, 110, 95, 85, 83, 1, 0, 12, 121, 51, 47, 112, 51, 88, 55, 119, 69, 116,
        107, 61, 74, 239, 47, 121, 135, 23, 79, 153, 0, 0, 0, 0, 189, 122, 161, 178, 0, 255, 118,
        166, 255, 0,
    ];
    assert!(ConnectPacket::deserialize(data).is_some());

    let mut encoded = Writer::new();
    Data::serialize(
        &ConnectPacket {
            version_build: 135,
            version_type: "rustbot".to_owned(),
            player_name: "allen".to_owned(),
            locale: "en-US".to_owned(),
            usid: "AAAAAAAA".to_owned(),
            uuid: uuid::Uuid::new_v4().as_bytes().to_vec(),
            mobile: false,
            color: 0x00ff00ff,
        },
        &mut encoded,
    );
    assert!(ConnectPacket::deserialize(&encoded.0).is_some());
}

#[test]
fn connect_packet_fixture_exact_fields() {
    let data = &[
        0, 0, 0, 135, 1, 0, 8, 111, 102, 102, 105, 99, 105, 97, 108, 1, 0, 5, 97, 108, 108, 101,
        110, 1, 0, 5, 101, 110, 95, 85, 83, 1, 0, 12, 121, 51, 47, 112, 51, 88, 55, 119, 69, 116,
        107, 61, 74, 239, 47, 121, 135, 23, 79, 153, 0, 0, 0, 0, 189, 122, 161, 178, 0, 255, 118,
        166, 255, 0,
    ];
    let p = ConnectPacket::deserialize(data).unwrap();
    assert_eq!(p.version_build, 135);
    assert_eq!(p.version_type, "official");
    assert_eq!(p.player_name, "allen");
    assert_eq!(p.locale, "en_US");
    assert_eq!(p.usid, "y3/p3X7wEtk=");
    assert_eq!(
        p.uuid,
        vec![74, 239, 47, 121, 135, 23, 79, 153, 0, 0, 0, 0, 189, 122, 161, 178]
    );
    assert!(!p.mobile);
    assert_eq!(p.color, 0xff76a6ff);
}

#[test]
fn connect_packet_truncated_fails() {
    // Cut inside the uuid: the decode fails as a value, with no panic.
    let data = &[
        0, 0, 0, 135, 1, 0, 8, 111, 102, 102, 105, 99, 105, 97, 108, 1, 0, 5, 97, 108, 108, 101,
        110, 1, 0, 5, 101, 110, 95, 85, 83, 1, 0, 12, 121, 51, 47, 112, 51, 88, 55, 119, 69, 116,
        107, 61, 74, 239,
    ];
    assert!(ConnectPacket::deserialize(data).is_none());
    // A presence byte other than 1 before a text field fails.
    let bad_flag = &[0u8, 0, 0, 135, 0, 0, 8];
    assert!(ConnectPacket::deserialize(bad_flag).is_none());
    assert!(ConnectPacket::deserialize(&[0, 0, 0]).is_none());
}
