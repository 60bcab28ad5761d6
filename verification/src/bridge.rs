//! The compute side of the transport bridge.
//!
//! The listeners read each accepted connection to completion and hand the
//! bytes here: [`bridge_inbound`] decodes them and tags the message by the
//! socket it arrived on. The dispatch loop then asks [`dispatch_inbound`]
//! what one inbound message starts or where it belongs. Messages of an
//! already-standing tunnel are routed by their tunnel id — the routing key
//! of this design.

use vstd::prelude::*;

use crate::codec::decode_message;
use crate::codec::spec_decode_message;
use crate::auth::Auth;
use crate::auth::AuthV;
use crate::codec::Message;
use crate::codec::MessageV;
use crate::errors::NodeError;
use crate::onion::Onion;
use crate::onion::OnionTunnelBuild;
use crate::onion::OnionV;
use crate::p2p::P2PMessage;
use crate::p2p::P2P;
use crate::rps::Rps;
use crate::rps::RpsV;

verus! {

/// A decoded message tagged by the socket it arrived on or leaves through.
pub enum StreamType {
    API(Message),
    P2P(Message),
}

/// Mathematical value of a [`StreamType`].
#[verifier::ext_equal]
pub enum StreamTypeV {
    API(MessageV),
    P2P(MessageV),
}

impl View for StreamType {
    type V = StreamTypeV;

    open spec fn view(&self) -> StreamTypeV {
        match self {
            StreamType::API(m) => StreamTypeV::API(m@),
            StreamType::P2P(m) => StreamTypeV::P2P(m@),
        }
    }
}

/// Decode the bytes one connection carried and tag the message by origin.
/// A frame that decodes as no message is reported malformed; the listener
/// logs it and carries on with its next iteration.
pub fn bridge_inbound(from_api: bool, bytes: &[u8]) -> (r: Result<StreamType, NodeError>)
    ensures
        match r {
            Ok(st) => spec_decode_message(bytes@) matches Some(mv) && st@ == if from_api {
                StreamTypeV::API(mv)
            } else {
                StreamTypeV::P2P(mv)
            },
            Err(e) => spec_decode_message(bytes@) is None && e == NodeError::MalformedMessage,
        },
{
    let message = decode_message(bytes)?;
    if from_api {
        Ok(StreamType::API(message))
    } else {
        Ok(StreamType::P2P(message))
    }
}

/// What the dispatch loop does with one inbound message.
pub enum DispatchDecision {
    /// A tunnel-build order: open a build dialogue on its own worker.
    StartBuildDialogue(OnionTunnelBuild),
    /// A peer knocks: open an answering dialogue on its own worker.
    StartAnswerDialogue(P2PMessage),
    /// The message belongs to the standing tunnel with this id.
    RouteToTunnel(u32, Message),
    /// An answer from the peer-sampling or Auth capability: it belongs to
    /// the dialogue whose request is in flight.
    CapabilityReply(Message),
    /// Not part of the protocol here: log it and move on.
    Discard(Message),
}

/// Whether a message is a capability's answer to an in-flight request.
pub open spec fn spec_capability_reply(m: MessageV) -> bool {
    match m {
        MessageV::Rps(RpsV::Peer(_)) => true,
        MessageV::Auth(AuthV::SessionHS1(_)) => true,
        MessageV::Auth(AuthV::SessionHS2(_)) => true,
        MessageV::Auth(AuthV::SessionIncommingHS2(_)) => true,
        MessageV::Auth(AuthV::CipherEncryptResp(_)) => true,
        MessageV::Auth(AuthV::CipherDecryptResp(_)) => true,
        MessageV::Auth(AuthV::SessionError(_)) => true,
        _ => false,
    }
}

/// Decide what one inbound message starts or where it belongs.
///
/// A tunnel-build order opens a new dialogue, as does a peer's knock. The
/// tunnel messages that carry a tunnel id go to the dialogue that owns that
/// tunnel; a capability's answer goes to the dialogue whose request is in
/// flight. Everything else is discarded where it stands.
pub fn dispatch_inbound(msg: Message) -> (r: DispatchDecision)
    ensures
        match msg@ {
            MessageV::Onion(OnionV::TunnelBuild(b)) => r matches DispatchDecision::StartBuildDialogue(x)
                && x@ == b,
            MessageV::Onion(OnionV::TunnelReady(p)) => r matches DispatchDecision::RouteToTunnel(
                tid,
                m,
            ) && tid == p.tunnel_id && m@ == msg@,
            MessageV::Onion(OnionV::TunnelData(p)) => r matches DispatchDecision::RouteToTunnel(
                tid,
                m,
            ) && tid == p.tunnel_id && m@ == msg@,
            MessageV::Onion(OnionV::TunnelIncomming(p)) => r matches DispatchDecision::RouteToTunnel(
                tid,
                m,
            ) && tid == p.tunnel_id && m@ == msg@,
            MessageV::Onion(OnionV::TunnelDestroy(p)) => r matches DispatchDecision::RouteToTunnel(
                tid,
                m,
            ) && tid == p.tunnel_id && m@ == msg@,
            MessageV::P2P(p) => if p.message_type == P2P::Knock {
                r matches DispatchDecision::StartAnswerDialogue(x) && x@ == p
            } else {
                r matches DispatchDecision::Discard(m) && m@ == msg@
            },
            _ => if spec_capability_reply(msg@) {
                r matches DispatchDecision::CapabilityReply(m) && m@ == msg@
            } else {
                r matches DispatchDecision::Discard(m) && m@ == msg@
            },
        },
{
    match msg {
        Message::Onion(Onion::TunnelBuild(b)) => DispatchDecision::StartBuildDialogue(b),
        Message::Onion(Onion::TunnelReady(p)) => {
            let tid = p.tunnel_id;
            DispatchDecision::RouteToTunnel(tid, Message::Onion(Onion::TunnelReady(p)))
        },
        Message::Onion(Onion::TunnelData(p)) => {
            let tid = p.tunnel_id;
            DispatchDecision::RouteToTunnel(tid, Message::Onion(Onion::TunnelData(p)))
        },
        Message::Onion(Onion::TunnelIncomming(p)) => {
            let tid = p.tunnel_id;
            DispatchDecision::RouteToTunnel(tid, Message::Onion(Onion::TunnelIncomming(p)))
        },
        Message::Onion(Onion::TunnelDestroy(p)) => {
            let tid = p.tunnel_id;
            DispatchDecision::RouteToTunnel(tid, Message::Onion(Onion::TunnelDestroy(p)))
        },
        Message::P2P(p) => {
            match p.message_type {
                P2P::Knock => DispatchDecision::StartAnswerDialogue(p),
                _ => DispatchDecision::Discard(Message::P2P(p)),
            }
        },
        Message::Rps(Rps::Peer(p)) => DispatchDecision::CapabilityReply(
            Message::Rps(Rps::Peer(p)),
        ),
        Message::Auth(Auth::SessionHS1(x)) => DispatchDecision::CapabilityReply(
            Message::Auth(Auth::SessionHS1(x)),
        ),
        Message::Auth(Auth::SessionHS2(x)) => DispatchDecision::CapabilityReply(
            Message::Auth(Auth::SessionHS2(x)),
        ),
        Message::Auth(Auth::SessionIncommingHS2(x)) => DispatchDecision::CapabilityReply(
            Message::Auth(Auth::SessionIncommingHS2(x)),
        ),
        Message::Auth(Auth::CipherEncryptResp(x)) => DispatchDecision::CapabilityReply(
            Message::Auth(Auth::CipherEncryptResp(x)),
        ),
        Message::Auth(Auth::CipherDecryptResp(x)) => DispatchDecision::CapabilityReply(
            Message::Auth(Auth::CipherDecryptResp(x)),
        ),
        Message::Auth(Auth::SessionError(x)) => DispatchDecision::CapabilityReply(
            Message::Auth(Auth::SessionError(x)),
        ),
        other => DispatchDecision::Discard(other),
    }
}

} // verus!
