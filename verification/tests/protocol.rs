//! End-to-end checks of the wire codec through its public functions.

use onion_node::addr::IpAddress;
use onion_node::auth::Auth;
use onion_node::auth::AuthCipherCrypt;
use onion_node::auth::AuthCipherCryptResp;
use onion_node::auth::AuthSessionClose;
use onion_node::auth::AuthSessionError;
use onion_node::auth::AuthSessionHS;
use onion_node::auth::AuthSessionHS1Response;
use onion_node::auth::AuthSessionStart;
use onion_node::codec::decode_message;
use onion_node::codec::encode_message;
use onion_node::codec::Message;
use onion_node::errors::NodeError;
use onion_node::onion::Onion;
use onion_node::onion::OnionCover;
use onion_node::onion::OnionError;
use onion_node::onion::OnionTunnelBuild;
use onion_node::onion::OnionTunnelID;
use onion_node::onion::OnionTunnelPayload;
use onion_node::p2p::P2PMessage;
use onion_node::p2p::P2P;
use onion_node::rps::Rps;
use onion_node::rps::RpsPeer;
use onion_node::rps::RpsQuery;

#[test]
fn tunnel_build_ipv4_encodes_to_fifteen_bytes_and_round_trips() {
    let build = OnionTunnelBuild {
        onion_tunnel: 7,
        ip_addr: IpAddress::V4(10, 0, 0, 1),
        hostkey: vec![0xAA, 0xBB, 0xCC],
    };
    let bytes = encode_message(Message::Onion(Onion::TunnelBuild(build))).unwrap();
    // 4 (envelope) + 1 + 1 + 2 + 4 + 3 = 15, spelled big-endian in the length field
    assert_eq!(bytes.len(), 15);
    assert_eq!(&bytes[0..2], &[0x00, 0x0F]);
    // registry id 560
    assert_eq!(&bytes[2..4], &[0x02, 0x30]);
    assert_eq!(
        &bytes[4..],
        &[0x00, 0x00, 0x00, 0x07, 10, 0, 0, 1, 0xAA, 0xBB, 0xCC]
    );
    match decode_message(&bytes).unwrap() {
        Message::Onion(Onion::TunnelBuild(b)) => {
            assert_eq!(b.onion_tunnel, 7);
            assert_eq!(b.ip_addr, IpAddress::V4(10, 0, 0, 1));
            assert_eq!(b.hostkey, vec![0xAA, 0xBB, 0xCC]);
        }
        _ => panic!("decoded to the wrong variant"),
    }
}

#[test]
fn rps_peer_ipv6_round_trips() {
    let peer = RpsPeer {
        port: 9001,
        ip_addr: IpAddress::V6(0, 0, 0, 0, 0, 0, 0, 1),
        hostkey: vec![0x01],
    };
    let bytes = encode_message(Message::Rps(Rps::Peer(peer))).unwrap();
    // 4 (envelope) + 2 + 1 + 1 + 16 + 1 = 25
    assert_eq!(bytes.len(), 25);
    assert_eq!(&bytes[0..2], &[0x00, 0x19]);
    match decode_message(&bytes).unwrap() {
        Message::Rps(Rps::Peer(p)) => {
            assert_eq!(p.port, 9001);
            assert_eq!(p.ip_addr, IpAddress::V6(0, 0, 0, 0, 0, 0, 0, 1));
            assert_eq!(p.hostkey, vec![0x01]);
        }
        _ => panic!("decoded to the wrong variant"),
    }
}

#[test]
fn ip_version_flag_selects_address_width() {
    let v4 = RpsPeer {
        port: 80,
        ip_addr: IpAddress::V4(192, 168, 1, 2),
        hostkey: vec![0x77],
    };
    let v6 = RpsPeer {
        port: 80,
        ip_addr: IpAddress::V6(0x2001, 0xdb8, 0, 0, 0, 0, 0, 5),
        hostkey: vec![0x77],
    };
    let b4 = encode_message(Message::Rps(Rps::Peer(v4))).unwrap();
    let b6 = encode_message(Message::Rps(Rps::Peer(v6))).unwrap();
    // flag byte: bit 0 clear for IPv4, set for IPv6
    assert_eq!(b4[4 + 3] & 1, 0);
    assert_eq!(b6[4 + 3] & 1, 1);
    // the hostkey shifts by exactly 12 bytes between the two address widths
    assert_eq!(b4.len() + 12, b6.len());
    assert_eq!(b4[4 + 8], 0x77);
    assert_eq!(b6[4 + 20], 0x77);
    match decode_message(&b4).unwrap() {
        Message::Rps(Rps::Peer(p)) => assert!(matches!(p.ip_addr, IpAddress::V4(..))),
        _ => panic!("decoded to the wrong variant"),
    }
    match decode_message(&b6).unwrap() {
        Message::Rps(Rps::Peer(p)) => assert!(matches!(p.ip_addr, IpAddress::V6(..))),
        _ => panic!("decoded to the wrong variant"),
    }
}

#[test]
fn tunnel_build_ipv6_round_trips() {
    let build = OnionTunnelBuild {
        onion_tunnel: 65535,
        ip_addr: IpAddress::V6(0xfe80, 0, 0, 0, 1, 2, 3, 4),
        hostkey: vec![],
    };
    let bytes = encode_message(Message::Onion(Onion::TunnelBuild(build))).unwrap();
    assert_eq!(bytes[4 + 1] & 1, 1);
    match decode_message(&bytes).unwrap() {
        Message::Onion(Onion::TunnelBuild(b)) => {
            assert_eq!(b.onion_tunnel, 65535);
            assert_eq!(b.ip_addr, IpAddress::V6(0xfe80, 0, 0, 0, 1, 2, 3, 4));
            assert!(b.hostkey.is_empty());
        }
        _ => panic!("decoded to the wrong variant"),
    }
}

#[test]
fn session_hs_round_trips_at_boundaries() {
    for (session_id, request_id, payload) in [
        (0u16, 0u32, vec![]),
        (u16::MAX, u32::MAX, vec![0x00]),
        (5, 77, vec![1, 2, 3, 4, 5]),
    ] {
        let m = AuthSessionHS {
            session_id,
            request_id,
            payload: payload.clone(),
        };
        let bytes = encode_message(Message::Auth(Auth::SessionHS1(m))).unwrap();
        match decode_message(&bytes).unwrap() {
            Message::Auth(Auth::SessionHS1(h)) => {
                assert_eq!(h.session_id, session_id);
                assert_eq!(h.request_id, request_id);
                assert_eq!(h.payload, payload);
            }
            _ => panic!("decoded to the wrong variant"),
        }
    }
}

#[test]
fn session_hs2_and_incoming_hs2_round_trip() {
    let m = AuthSessionHS {
        session_id: 9,
        request_id: 1000,
        payload: vec![0xFE],
    };
    let bytes = encode_message(Message::Auth(Auth::SessionHS2(m))).unwrap();
    assert!(matches!(
        decode_message(&bytes).unwrap(),
        Message::Auth(Auth::SessionHS2(_))
    ));
    let m = AuthSessionHS {
        session_id: 9,
        request_id: 1000,
        payload: vec![0xFE],
    };
    let bytes = encode_message(Message::Auth(Auth::SessionIncommingHS2(m))).unwrap();
    assert!(matches!(
        decode_message(&bytes).unwrap(),
        Message::Auth(Auth::SessionIncommingHS2(_))
    ));
}

#[test]
fn tunnel_payload_and_id_round_trip() {
    let bytes = encode_message(Message::Onion(Onion::TunnelData(OnionTunnelPayload {
        tunnel_id: u32::MAX,
        payload: vec![9, 8, 7],
    })))
    .unwrap();
    match decode_message(&bytes).unwrap() {
        Message::Onion(Onion::TunnelData(p)) => {
            assert_eq!(p.tunnel_id, u32::MAX);
            assert_eq!(p.payload, vec![9, 8, 7]);
        }
        _ => panic!("decoded to the wrong variant"),
    }
    let bytes = encode_message(Message::Onion(Onion::TunnelReady(OnionTunnelPayload {
        tunnel_id: 0,
        payload: vec![],
    })))
    .unwrap();
    assert!(matches!(
        decode_message(&bytes).unwrap(),
        Message::Onion(Onion::TunnelReady(_))
    ));
    let bytes =
        encode_message(Message::Onion(Onion::TunnelDestroy(OnionTunnelID { tunnel_id: 42 })))
            .unwrap();
    match decode_message(&bytes).unwrap() {
        Message::Onion(Onion::TunnelDestroy(p)) => assert_eq!(p.tunnel_id, 42),
        _ => panic!("decoded to the wrong variant"),
    }
    let bytes =
        encode_message(Message::Onion(Onion::TunnelIncomming(OnionTunnelID { tunnel_id: 1 })))
            .unwrap();
    assert!(matches!(
        decode_message(&bytes).unwrap(),
        Message::Onion(Onion::TunnelIncomming(_))
    ));
}

#[test]
fn p2p_message_round_trips_through_the_self_describing_form() {
    let bytes = encode_message(Message::P2P(P2PMessage::new(P2P::Knock))).unwrap();
    // no envelope: the pair travels self-described
    match decode_message(&bytes).unwrap() {
        Message::P2P(p) => {
            assert_eq!(p.message_type, P2P::Knock);
            assert_eq!(p.data, None);
        }
        _ => panic!("decoded to the wrong variant"),
    }
    let bytes = encode_message(Message::P2P(P2PMessage {
        message_type: P2P::Data,
        data: Some(vec![0xDE, 0xAD]),
    }))
    .unwrap();
    match decode_message(&bytes).unwrap() {
        Message::P2P(p) => {
            assert_eq!(p.message_type, P2P::Data);
            assert_eq!(p.data, Some(vec![0xDE, 0xAD]));
        }
        _ => panic!("decoded to the wrong variant"),
    }
}

#[test]
fn p2p_new_carries_no_payload() {
    let m = P2PMessage::new(P2P::WhosThere);
    assert_eq!(m.message_type, P2P::WhosThere);
    assert_eq!(m.data, None);
}

#[test]
fn frame_shorter_than_declared_length_is_malformed() {
    let build = OnionTunnelBuild {
        onion_tunnel: 7,
        ip_addr: IpAddress::V4(10, 0, 0, 1),
        hostkey: vec![0xAA, 0xBB, 0xCC],
    };
    let bytes = encode_message(Message::Onion(Onion::TunnelBuild(build))).unwrap();
    // drop the last byte: fewer bytes than the declared total length
    let truncated = &bytes[..bytes.len() - 1];
    assert!(matches!(
        decode_message(truncated),
        Err(NodeError::MalformedMessage)
    ));
}

#[test]
fn trailing_bytes_beyond_declared_length_are_ignored() {
    let build = OnionTunnelBuild {
        onion_tunnel: 7,
        ip_addr: IpAddress::V4(10, 0, 0, 1),
        hostkey: vec![0xAA, 0xBB, 0xCC],
    };
    let mut bytes = encode_message(Message::Onion(Onion::TunnelBuild(build))).unwrap();
    bytes.push(0xFF);
    bytes.push(0xFF);
    bytes.push(0xFF);
    match decode_message(&bytes).unwrap() {
        Message::Onion(Onion::TunnelBuild(b)) => {
            assert_eq!(b.hostkey, vec![0xAA, 0xBB, 0xCC]);
        }
        _ => panic!("decoded to the wrong variant"),
    }
}

#[test]
fn malformed_frames_are_refused() {
    // too short to hold the envelope
    assert!(matches!(
        decode_message(&[0x00]),
        Err(NodeError::MalformedMessage)
    ));
    // declared length shorter than the envelope itself
    assert!(matches!(
        decode_message(&[0x00, 0x02, 0x02, 0x30]),
        Err(NodeError::MalformedMessage)
    ));
    // unknown registry id (1)
    assert!(matches!(
        decode_message(&[0x00, 0x04, 0x00, 0x01]),
        Err(NodeError::MalformedMessage)
    ));
    // a known id whose variant is outbound-only (session start, 600)
    assert!(matches!(
        decode_message(&[0x00, 0x0C, 0x02, 0x58, 0, 0, 0, 0, 0, 0, 0, 1]),
        Err(NodeError::MalformedMessage)
    ));
    // a handshake frame whose payload is too short for its fixed fields
    assert!(matches!(
        decode_message(&[0x00, 0x08, 0x02, 0x59, 0, 0, 0, 1]),
        Err(NodeError::MalformedMessage)
    ));
    // a tunnel-build frame cut inside its IPv6 address
    assert!(matches!(
        decode_message(&[0x00, 0x0A, 0x02, 0x30, 0x00, 0x01, 0, 7, 0, 0]),
        Err(NodeError::MalformedMessage)
    ));
}

#[test]
fn per_struct_decoders_reject_truncated_fields() {
    assert!(matches!(
        AuthSessionHS::decode(vec![0, 0, 0, 1]),
        Err(NodeError::MalformedMessage)
    ));
    assert!(matches!(
        AuthCipherCryptResp::decode(vec![0, 0, 0]),
        Err(NodeError::MalformedMessage)
    ));
    assert!(matches!(
        AuthSessionError::decode(vec![0, 0, 0, 0, 9]),
        Err(NodeError::MalformedMessage)
    ));
    assert!(matches!(
        OnionTunnelPayload::decode(vec![1, 2]),
        Err(NodeError::MalformedMessage)
    ));
    assert!(matches!(
        OnionTunnelID::decode(vec![]),
        Err(NodeError::MalformedMessage)
    ));
    assert!(matches!(
        OnionCover::decode(vec![0, 5]),
        Err(NodeError::MalformedMessage)
    ));
    assert!(matches!(
        OnionTunnelBuild::decode(vec![0, 0]),
        Err(NodeError::MalformedMessage)
    ));
    assert!(matches!(
        RpsPeer::decode(vec![0, 80, 0, 0, 1, 2]),
        Err(NodeError::MalformedMessage)
    ));
}

#[test]
fn per_struct_decoders_read_their_fields() {
    let resp =
        AuthCipherCryptResp::decode(vec![0, 0, 0, 1, 0, 0, 0, 9, 0xAB]).unwrap();
    assert!(resp.cleartext);
    assert_eq!(resp.request_id, 9);
    assert_eq!(resp.payload, vec![0xAB]);

    let err = AuthSessionError::decode(vec![0, 0, 0, 0, 0, 0, 1, 0]).unwrap();
    assert_eq!(err.request_id, 256);

    let cover = OnionCover::decode(vec![0x01, 0x00, 0, 0]).unwrap();
    assert_eq!(cover.cover_size, 256);

    let hs = AuthSessionHS::decode(vec![0, 0, 0, 3, 0, 0, 0, 8, 7, 7]).unwrap();
    assert_eq!(hs.session_id, 3);
    assert_eq!(hs.request_id, 8);
    assert_eq!(hs.payload, vec![7, 7]);
}

#[test]
fn outbound_only_encoders_write_their_layout() {
    let bytes = AuthSessionStart {
        request_id: 0x01020304,
        hostkey: vec![0xAA],
    }
    .encode()
    .unwrap();
    assert_eq!(bytes, vec![0, 0, 0, 0, 1, 2, 3, 4, 0xAA]);

    let bytes = AuthSessionHS1Response {
        request_id: 5,
        payload: vec![0x10],
    }
    .encode()
    .unwrap();
    assert_eq!(bytes, vec![0, 0, 0, 0, 0, 0, 0, 5, 0x10]);

    let bytes = AuthCipherCrypt {
        session_id: 0x0102,
        request_id: 0x03040506,
        cleartext: true,
        payload: vec![0x20],
    }
    .encode()
    .unwrap();
    assert_eq!(bytes, vec![0, 0, 0, 1, 3, 4, 5, 6, 1, 2, 0x20]);

    let bytes = AuthSessionClose { session_id: 513 }.encode().unwrap();
    assert_eq!(bytes, vec![0, 0, 2, 1]);

    let bytes = OnionError {
        tunnel_id: 7,
        request_type: 560,
    }
    .encode()
    .unwrap();
    assert_eq!(bytes, vec![2, 48, 0, 0, 0, 0, 0, 7]);

    let bytes = RpsQuery {}.encode().unwrap();
    assert!(bytes.is_empty());

    // the enveloped query is the bare envelope: length 4, id 540
    let bytes = encode_message(Message::Rps(Rps::Query(RpsQuery {}))).unwrap();
    assert_eq!(bytes, vec![0x00, 0x04, 0x02, 0x1C]);
}
