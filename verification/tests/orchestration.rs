//! Scenario checks of the tunnel orchestration: dialogues, identifier
//! allocation, layered encryption, and dispatch.

use onion_node::addr::IpAddress;
use onion_node::auth::Auth;
use onion_node::auth::AuthCipherCryptResp;
use onion_node::auth::AuthSessionHS;
use onion_node::bridge::bridge_inbound;
use onion_node::bridge::dispatch_inbound;
use onion_node::bridge::DispatchDecision;
use onion_node::bridge::StreamType;
use onion_node::codec::encode_message;
use onion_node::codec::Message;
use onion_node::dialogue::AuthSession;
use onion_node::dialogue::Dialogue;
use onion_node::dialogue::DialogueAction;
use onion_node::dialogue::DialoguePhase;
use onion_node::errors::NodeError;
use onion_node::ids::IdAllocator;
use onion_node::layers::LayerCrypt;
use onion_node::layers::LayerStep;
use onion_node::onion::Onion;
use onion_node::onion::OnionTunnelBuild;
use onion_node::onion::OnionTunnelID;
use onion_node::onion::OnionTunnelPayload;
use onion_node::p2p::P2PMessage;
use onion_node::p2p::P2P;
use onion_node::rps::Rps;
use onion_node::rps::RpsPeer;

fn sample_build() -> OnionTunnelBuild {
    OnionTunnelBuild {
        onion_tunnel: 7,
        ip_addr: IpAddress::V4(10, 0, 0, 1),
        hostkey: vec![0xAA, 0xBB, 0xCC],
    }
}

fn sample_peer(last_octet: u8, key: u8) -> RpsPeer {
    RpsPeer {
        port: 4000 + last_octet as u16,
        ip_addr: IpAddress::V4(10, 0, 0, last_octet),
        hostkey: vec![key],
    }
}

fn hs(session_id: u16) -> AuthSessionHS {
    AuthSessionHS {
        session_id,
        request_id: 0,
        payload: vec![0x55],
    }
}

/// Drive one full hop negotiation; returns the actions of the final step.
fn negotiate_hop(
    d: &mut Dialogue,
    ids: &mut IdAllocator,
    peer: RpsPeer,
    session_id: u16,
) -> Vec<DialogueAction> {
    let acts = d.handle(Message::Rps(Rps::Peer(peer)), ids).unwrap();
    assert!(matches!(acts[0], DialogueAction::SendApi(Message::Auth(Auth::SessionStart(_)))));
    assert_eq!(d.phase, DialoguePhase::AwaitingHs1);
    let acts = d
        .handle(Message::Auth(Auth::SessionHS1(hs(session_id))), ids)
        .unwrap();
    assert!(matches!(acts[0], DialogueAction::SendPeer(_)));
    assert_eq!(d.phase, DialoguePhase::AwaitingHs2);
    d.handle(Message::Auth(Auth::SessionHS2(hs(session_id))), ids)
        .unwrap()
}

#[test]
fn two_hop_dialogue_reaches_tunnel_ready_with_one_request_id_per_hop() {
    let mut ids = IdAllocator::new();
    let (mut d, first) = Dialogue::new(sample_build(), 2);
    assert!(matches!(first, Message::Rps(Rps::Query(_))));
    assert_eq!(d.phase, DialoguePhase::AwaitingPeer);

    // first hop: dialed directly, session start under request id 0
    let acts = d.handle(Message::Rps(Rps::Peer(sample_peer(1, 0x11))), &mut ids).unwrap();
    match &acts[0] {
        DialogueAction::SendApi(Message::Auth(Auth::SessionStart(s))) => {
            assert_eq!(s.request_id, 0);
            assert_eq!(s.hostkey, vec![0x11]);
        }
        _ => panic!("expected a session start"),
    }
    match &acts[1] {
        DialogueAction::ConnectDirect(ip, port) => {
            assert_eq!(*ip, IpAddress::V4(10, 0, 0, 1));
            assert_eq!(*port, 4001);
        }
        _ => panic!("the entry hop is dialed directly"),
    }
    d.handle(Message::Auth(Auth::SessionHS1(hs(31))), &mut ids).unwrap();
    let acts = d.handle(Message::Auth(Auth::SessionHS2(hs(31))), &mut ids).unwrap();
    assert!(matches!(acts[0], DialogueAction::SendApi(Message::Rps(Rps::Query(_)))));
    assert_eq!(d.phase, DialoguePhase::AwaitingPeer);

    // second hop: reached through the entry hop's address, request id 1
    let acts = d.handle(Message::Rps(Rps::Peer(sample_peer(2, 0x22))), &mut ids).unwrap();
    match &acts[0] {
        DialogueAction::SendApi(Message::Auth(Auth::SessionStart(s))) => {
            assert_eq!(s.request_id, 1);
        }
        _ => panic!("expected a session start"),
    }
    match &acts[1] {
        DialogueAction::ConnectRelayed(ip, port) => {
            assert_eq!(*ip, IpAddress::V4(10, 0, 0, 1));
            assert_eq!(*port, 4001);
        }
        _ => panic!("later hops are reached through the entry hop"),
    }
    d.handle(Message::Auth(Auth::SessionHS1(hs(32))), &mut ids).unwrap();
    let acts = d.handle(Message::Auth(Auth::SessionHS2(hs(32))), &mut ids).unwrap();

    // exactly 2 hop negotiations, each consuming exactly one fresh request id
    assert_eq!(ids.next_request_id, 2);
    assert_eq!(d.phase, DialoguePhase::Active);
    assert_eq!(d.hops.len(), 2);
    assert_eq!(d.hops[0].session_id, 31);
    assert_eq!(d.hops[1].session_id, 32);
    match &acts[0] {
        DialogueAction::SendApi(Message::Onion(Onion::TunnelReady(p))) => {
            assert_eq!(p.tunnel_id, 0);
            assert_eq!(p.payload, vec![0xAA, 0xBB, 0xCC]);
        }
        _ => panic!("expected the tunnel-ready notice"),
    }
    assert_eq!(d.tunnel_id, Some(0));
    assert_eq!(ids.next_tunnel_id, 1);
}

#[test]
fn breach_in_one_dialogue_leaves_a_concurrent_dialogue_untouched() {
    let mut ids = IdAllocator::new();
    let (mut healthy, _) = Dialogue::new(sample_build(), 1);
    let (mut breached, _) = Dialogue::new(sample_build(), 1);

    // the breached dialogue gets a cover order where a peer was expected
    let r = breached.handle(
        Message::Onion(Onion::TunnelData(OnionTunnelPayload {
            tunnel_id: 1,
            payload: vec![],
        })),
        &mut ids,
    );
    assert!(matches!(r, Err(NodeError::ProtocolBreach)));
    assert_eq!(breached.phase, DialoguePhase::Failed);

    // the healthy dialogue still reaches its ready notice
    let acts = negotiate_hop(&mut healthy, &mut ids, sample_peer(1, 0x11), 99);
    assert_eq!(healthy.phase, DialoguePhase::Active);
    assert!(matches!(
        acts[0],
        DialogueAction::SendApi(Message::Onion(Onion::TunnelReady(_)))
    ));
    assert_eq!(breached.phase, DialoguePhase::Failed);
}

#[test]
fn active_dialogue_relays_data_and_destroys_on_order() {
    let mut ids = IdAllocator::new();
    let (mut d, _) = Dialogue::new(sample_build(), 1);
    negotiate_hop(&mut d, &mut ids, sample_peer(1, 0x11), 5);
    assert_eq!(d.phase, DialoguePhase::Active);

    let acts = d
        .handle(
            Message::Onion(Onion::TunnelData(OnionTunnelPayload {
                tunnel_id: 0,
                payload: vec![1, 2, 3],
            })),
            &mut ids,
        )
        .unwrap();
    match &acts[0] {
        DialogueAction::RelayData(v) => assert_eq!(v, &vec![1, 2, 3]),
        _ => panic!("tunnel data is relayed"),
    }
    assert_eq!(d.phase, DialoguePhase::Active);

    let acts = d
        .handle(
            Message::Onion(Onion::TunnelDestroy(OnionTunnelID { tunnel_id: 0 })),
            &mut ids,
        )
        .unwrap();
    assert!(acts.is_empty());
    assert_eq!(d.phase, DialoguePhase::Destroyed);

    let closes = d.close_sessions();
    assert_eq!(closes.len(), 1);
    match &closes[0] {
        Message::Auth(Auth::SessionClose(c)) => assert_eq!(c.session_id, 5),
        _ => panic!("each hop gets a session close"),
    }
}

#[test]
fn active_dialogue_breaches_on_unexpected_message() {
    let mut ids = IdAllocator::new();
    let (mut d, _) = Dialogue::new(sample_build(), 1);
    negotiate_hop(&mut d, &mut ids, sample_peer(1, 0x11), 5);
    let r = d.handle(Message::Rps(Rps::Peer(sample_peer(2, 0x22))), &mut ids);
    assert!(matches!(r, Err(NodeError::ProtocolBreach)));
    assert_eq!(d.phase, DialoguePhase::Failed);
}

#[test]
fn id_allocator_issues_distinct_increasing_ids_per_counter() {
    let mut ids = IdAllocator::new();
    let mut seen = Vec::new();
    for _ in 0..100 {
        seen.push(ids.fresh_request_id());
    }
    for i in 1..seen.len() {
        assert!(seen[i - 1] < seen[i]);
    }
    // the two counters are independent
    assert_eq!(ids.fresh_tunnel_id(), 0);
    assert_eq!(ids.fresh_tunnel_id(), 1);
    assert_eq!(ids.next_request_id, 100);
}

#[test]
fn three_hop_chain_issues_three_cipher_requests() {
    let mut ids = IdAllocator::new();
    let hops = vec![
        AuthSession { session_id: 11, peer: sample_peer(1, 0x11) },
        AuthSession { session_id: 22, peer: sample_peer(2, 0x22) },
        AuthSession { session_id: 33, peer: sample_peer(3, 0x33) },
    ];
    let (mut machine, first) = LayerCrypt::begin(&hops, vec![0x01, 0x02], &mut ids);
    // first request: cleartext flag set, entry session, fresh id
    assert!(first.cleartext);
    assert_eq!(first.session_id, 11);
    assert_eq!(first.request_id, 0);
    assert_eq!(first.payload, vec![0x01, 0x02]);

    let resp = |payload: Vec<u8>| {
        Message::Auth(Auth::CipherEncryptResp(AuthCipherCryptResp {
            request_id: 0,
            cleartext: false,
            payload,
        }))
    };

    // second request wraps the first answer, flag cleared, still the entry session
    let step = machine.on_response(resp(vec![0xC1]), &mut ids).unwrap();
    let second = match step {
        LayerStep::Request(q) => q,
        LayerStep::Output(_) => panic!("two hops remain"),
    };
    assert!(!second.cleartext);
    assert_eq!(second.session_id, 11);
    assert_eq!(second.request_id, 1);
    assert_eq!(second.payload, vec![0xC1]);

    let step = machine.on_response(resp(vec![0xC2]), &mut ids).unwrap();
    let third = match step {
        LayerStep::Request(q) => q,
        LayerStep::Output(_) => panic!("one hop remains"),
    };
    assert!(!third.cleartext);
    assert_eq!(third.session_id, 11);
    assert_eq!(third.request_id, 2);
    assert_eq!(third.payload, vec![0xC2]);

    // after the last hop the wrapped payload comes back; no further request
    let step = machine.on_response(resp(vec![0xC3]), &mut ids).unwrap();
    match step {
        LayerStep::Output(v) => assert_eq!(v, vec![0xC3]),
        LayerStep::Request(_) => panic!("exactly three requests for three hops"),
    }
    assert_eq!(ids.next_request_id, 3);
}

#[test]
fn single_hop_chain_issues_one_cipher_request() {
    let mut ids = IdAllocator::new();
    let hops = vec![AuthSession { session_id: 4, peer: sample_peer(1, 0x11) }];
    let (mut machine, first) = LayerCrypt::begin(&hops, vec![0x0A], &mut ids);
    assert!(first.cleartext);
    let step = machine
        .on_response(
            Message::Auth(Auth::CipherEncryptResp(AuthCipherCryptResp {
                request_id: 0,
                cleartext: false,
                payload: vec![0xEE],
            })),
            &mut ids,
        )
        .unwrap();
    assert!(matches!(step, LayerStep::Output(v) if v == vec![0xEE]));
    assert_eq!(ids.next_request_id, 1);
}

#[test]
fn layer_sequencer_breaches_on_unexpected_message() {
    let mut ids = IdAllocator::new();
    let hops = vec![AuthSession { session_id: 4, peer: sample_peer(1, 0x11) }];
    let (mut machine, _) = LayerCrypt::begin(&hops, vec![], &mut ids);
    let r = machine.on_response(Message::Rps(Rps::Peer(sample_peer(2, 0x22))), &mut ids);
    assert!(matches!(r, Err(NodeError::ProtocolBreach)));
}

#[test]
fn bridge_tags_messages_by_origin_and_reports_malformed_frames() {
    let bytes = encode_message(Message::Onion(Onion::TunnelBuild(sample_build()))).unwrap();
    assert!(matches!(
        bridge_inbound(true, &bytes).unwrap(),
        StreamType::API(Message::Onion(Onion::TunnelBuild(_)))
    ));
    assert!(matches!(
        bridge_inbound(false, &bytes).unwrap(),
        StreamType::P2P(Message::Onion(Onion::TunnelBuild(_)))
    ));
    assert!(matches!(
        bridge_inbound(true, &[0x00]),
        Err(NodeError::MalformedMessage)
    ));
}

#[test]
fn dispatch_starts_dialogues_and_routes_by_tunnel_id() {
    let d = dispatch_inbound(Message::Onion(Onion::TunnelBuild(sample_build())));
    assert!(matches!(d, DispatchDecision::StartBuildDialogue(_)));

    let d = dispatch_inbound(Message::P2P(P2PMessage::new(P2P::Knock)));
    assert!(matches!(d, DispatchDecision::StartAnswerDialogue(_)));

    let d = dispatch_inbound(Message::Onion(Onion::TunnelData(OnionTunnelPayload {
        tunnel_id: 77,
        payload: vec![],
    })));
    match d {
        DispatchDecision::RouteToTunnel(tid, Message::Onion(Onion::TunnelData(_))) => {
            assert_eq!(tid, 77)
        }
        _ => panic!("tunnel data routes by its tunnel id"),
    }

    let d = dispatch_inbound(Message::Onion(Onion::TunnelDestroy(OnionTunnelID {
        tunnel_id: 5,
    })));
    assert!(matches!(d, DispatchDecision::RouteToTunnel(5, _)));

    // a peer message that is no knock is logged and discarded
    let d = dispatch_inbound(Message::P2P(P2PMessage::new(P2P::Forward)));
    assert!(matches!(d, DispatchDecision::Discard(_)));

    // a capability's answer goes to the dialogue whose request is in flight
    let d = dispatch_inbound(Message::Rps(Rps::Peer(sample_peer(1, 0x11))));
    assert!(matches!(d, DispatchDecision::CapabilityReply(_)));
    let d = dispatch_inbound(Message::Auth(Auth::CipherEncryptResp(AuthCipherCryptResp {
        request_id: 0,
        cleartext: false,
        payload: vec![],
    })));
    assert!(matches!(d, DispatchDecision::CapabilityReply(_)));
}
