//! One tunnel-build dialogue's state machine.
//!
//! A dialogue is opened by a tunnel-build order and negotiates one hop at a
//! time: it queries the peer-sampling capability for a candidate, starts a
//! session with the Auth capability for that peer's hostkey, and walks the
//! two handshake phases. Once `min_hop_count` sessions stand, it announces
//! the tunnel as ready and relays data until it is told to destroy the
//! tunnel. The machine decides; it never touches a socket or a channel:
//! each step hands back the actions its runner must perform.
//!
//! Any unexpected message is a protocol breach that fails only this
//! dialogue; other dialogues and the listeners are untouched.

use vstd::prelude::*;

use crate::auth::Auth;
use crate::auth::AuthSessionClose;
use crate::auth::AuthSessionStart;
use crate::auth::AuthSessionStartV;
use crate::auth::AuthV;
use crate::codec::Message;
use crate::codec::MessageV;
use crate::errors::NodeError;
use crate::ids::wrap_next;
use crate::ids::IdAllocator;
use crate::onion::Onion;
use crate::onion::OnionTunnelBuild;
use crate::onion::OnionTunnelPayload;
use crate::onion::OnionV;
use crate::rps::Rps;
use crate::rps::RpsPeer;
use crate::rps::RpsPeerV;
use crate::rps::RpsQuery;
use crate::rps::RpsV;
use crate::addr::IpAddress;

verus! {

/// An established cryptographic session with one hop: the session id the
/// Auth capability assigned and the peer it is bound to.
pub struct AuthSession {
    pub session_id: u16,
    pub peer: RpsPeer,
}

/// Mathematical value of an [`AuthSession`].
#[verifier::ext_equal]
pub struct AuthSessionV {
    pub session_id: u16,
    pub peer: RpsPeerV,
}

impl View for AuthSession {
    type V = AuthSessionV;

    open spec fn view(&self) -> AuthSessionV {
        AuthSessionV { session_id: self.session_id, peer: self.peer@ }
    }
}

/// Where a dialogue stands. `AwaitingPeer`, `AwaitingHs1` and `AwaitingHs2`
/// together form one hop negotiation; the hop count so far is the length of
/// the established-session list.
#[derive(Clone, Copy, Debug, PartialEq, Eq, Structural)]
pub enum DialoguePhase {
    /// A peer query is out; the peer-sampling answer is awaited.
    AwaitingPeer,
    /// A session-start request is out; the first handshake phase is awaited.
    AwaitingHs1,
    /// The first phase went to the peer; the second phase is awaited.
    AwaitingHs2,
    /// The tunnel stands; data is relayed until a destroy order arrives.
    Active,
    /// Terminal: torn down by a destroy order.
    Destroyed,
    /// Terminal: aborted by a protocol breach.
    Failed,
}

/// What the dialogue's runner must do after a step.
pub enum DialogueAction {
    /// Write this message to the control-API connection.
    SendApi(Message),
    /// Dial the peer directly (only the entry hop is dialed).
    ConnectDirect(IpAddress, u16),
    /// Reach a later hop through the entry hop's address.
    ConnectRelayed(IpAddress, u16),
    /// Forward this message to the connected peer.
    SendPeer(Message),
    /// Layer-encrypt this payload over the hop chain and send it on.
    RelayData(Vec<u8>),
}

/// One tunnel-build dialogue.
pub struct Dialogue {
    /// How many hops the tunnel must have; at least 1.
    pub min_hop_count: u8,
    /// The order that opened the dialogue.
    pub build: OnionTunnelBuild,
    /// The established hop chain, entry hop first.
    pub hops: Vec<AuthSession>,
    /// The peer whose session is being negotiated.
    pub pending_peer: Option<RpsPeer>,
    /// Where the dialogue stands.
    pub phase: DialoguePhase,
    /// The id the tunnel was announced under, once it stands.
    pub tunnel_id: Option<u32>,
}

impl Dialogue {
    /// The machine's invariant: hop negotiations happen strictly before the
    /// tunnel stands, a mid-negotiation phase knows its candidate peer, and
    /// an active tunnel has exactly `min_hop_count` hops and an id.
    pub open spec fn wf(self) -> bool {
        &&& self.min_hop_count >= 1
        &&& self.hops@.len() <= self.min_hop_count
        &&& (self.phase == DialoguePhase::AwaitingPeer ==> self.hops@.len() < self.min_hop_count)
        &&& (self.phase == DialoguePhase::AwaitingHs1 || self.phase == DialoguePhase::AwaitingHs2
            ==> self.pending_peer is Some && self.hops@.len() < self.min_hop_count)
        &&& (self.phase == DialoguePhase::Active ==> self.hops@.len() == self.min_hop_count
            && self.tunnel_id is Some)
    }

    /// Whether the machine still takes messages.
    pub open spec fn live(self) -> bool {
        self.phase == DialoguePhase::AwaitingPeer || self.phase == DialoguePhase::AwaitingHs1
            || self.phase == DialoguePhase::AwaitingHs2 || self.phase == DialoguePhase::Active
    }

    /// Open a dialogue for a tunnel-build order. The message returned is
    /// the first peer query; the dialogue then awaits the sampled peer.
    pub fn new(build: OnionTunnelBuild, min_hop_count: u8) -> (r: (Dialogue, Message))
        requires
            min_hop_count >= 1,
        ensures
            r.0.wf(),
            r.0.phase == DialoguePhase::AwaitingPeer,
            r.0.hops@.len() == 0,
            r.0.min_hop_count == min_hop_count,
            r.0.build@ == build@,
            r.0.tunnel_id is None,
            r.1@ == MessageV::Rps(RpsV::Query(RpsQuery {  })),
    {
        let d = Dialogue {
            min_hop_count,
            build,
            hops: Vec::new(),
            pending_peer: None,
            phase: DialoguePhase::AwaitingPeer,
            tunnel_id: None,
        };
        (d, Message::Rps(Rps::Query(RpsQuery {  })))
    }

    /// Take one message routed to this dialogue and step the machine.
    ///
    /// In order per hop: the sampled peer answers the query (a session
    /// start goes out, and a connection — direct for the entry hop, relayed
    /// through the entry hop's address for every later one); the first
    /// handshake phase arrives and is forwarded to the peer; the second
    /// phase completes the hop's session. When the last hop stands, the
    /// tunnel-ready notice goes out under a fresh tunnel id. While active,
    /// tunnel data is relayed and a destroy order ends the dialogue. Every
    /// other message is a protocol breach that fails this dialogue alone.
    ///
    /// Exactly one fresh request id is drawn per hop (for its session
    /// start), and one fresh tunnel id when the tunnel is announced.
    pub fn handle(&mut self, msg: Message, ids: &mut IdAllocator) -> (r: Result<
        Vec<DialogueAction>,
        NodeError,
    >)
        requires
            old(self).wf(),
            old(self).live(),
        ensures
            final(self).wf(),
            final(self).min_hop_count == old(self).min_hop_count,
            final(self).build@ == old(self).build@,
            match old(self).phase {
                DialoguePhase::AwaitingPeer => match msg@ {
                    MessageV::Rps(RpsV::Peer(p)) => {
                        &&& r matches Ok(acts)
                        &&& final(self).phase == DialoguePhase::AwaitingHs1
                        &&& final(self).hops@ == old(self).hops@
                        &&& final(self).tunnel_id == old(self).tunnel_id
                        &&& final(self).pending_peer matches Some(q) && q@ == p
                        &&& final(ids).next_request_id == wrap_next(old(ids).next_request_id)
                        &&& final(ids).next_tunnel_id == old(ids).next_tunnel_id
                        &&& acts@.len() == 2
                        &&& acts@[0] matches DialogueAction::SendApi(m0) && m0@ == MessageV::Auth(
                            AuthV::SessionStart(
                                AuthSessionStartV {
                                    request_id: old(ids).next_request_id,
                                    hostkey: p.hostkey,
                                },
                            ),
                        )
                        &&& if old(self).hops@.len() == 0 {
                            acts@[1] matches DialogueAction::ConnectDirect(ip, port) && ip
                                == p.ip_addr && port == p.port
                        } else {
                            acts@[1] matches DialogueAction::ConnectRelayed(ip, port) && ip
                                == old(self).hops@[0].peer.ip_addr && port
                                == old(self).hops@[0].peer.port
                        }
                    },
                    _ => final(self).breached(*old(self), *old(ids), *final(ids), r),
                },
                DialoguePhase::AwaitingHs1 => match msg@ {
                    MessageV::Auth(AuthV::SessionHS1(hs)) => {
                        &&& r matches Ok(acts)
                        &&& final(self).phase == DialoguePhase::AwaitingHs2
                        &&& final(self).hops@ == old(self).hops@
                        &&& final(self).tunnel_id == old(self).tunnel_id
                        &&& final(self).pending_peer == old(self).pending_peer
                        &&& *final(ids) == *old(ids)
                        &&& acts@.len() == 1
                        &&& acts@[0] matches DialogueAction::SendPeer(m0) && m0@ == MessageV::Auth(
                            AuthV::SessionHS1(hs),
                        )
                    },
                    _ => final(self).breached(*old(self), *old(ids), *final(ids), r),
                },
                DialoguePhase::AwaitingHs2 => match msg@ {
                    MessageV::Auth(AuthV::SessionHS2(hs)) => {
                        &&& final(self).hops@.len() == old(self).hops@.len() + 1
                        &&& (forall|i: int|
                            0 <= i < old(self).hops@.len() ==> final(self).hops@[i] == old(
                                self).hops@[i])
                        &&& old(self).pending_peer matches Some(pp) && final(
                            self).hops@.last()@ == (AuthSessionV {
                            session_id: hs.session_id,
                            peer: pp@,
                        })
                        &&& final(self).pending_peer is None
                        &&& r matches Ok(acts)
                        &&& if old(self).hops@.len() + 1 < old(self).min_hop_count {
                            &&& final(self).phase == DialoguePhase::AwaitingPeer
                            &&& final(self).tunnel_id == old(self).tunnel_id
                            &&& *final(ids) == *old(ids)
                            &&& acts@.len() == 1
                            &&& acts@[0] matches DialogueAction::SendApi(m0) && m0@
                                == MessageV::Rps(RpsV::Query(RpsQuery {  }))
                        } else {
                            &&& final(self).phase == DialoguePhase::Active
                            &&& final(self).tunnel_id == Some(old(ids).next_tunnel_id)
                            &&& final(ids).next_tunnel_id == wrap_next(old(ids).next_tunnel_id)
                            &&& final(ids).next_request_id == old(ids).next_request_id
                            &&& acts@.len() == 1
                            &&& acts@[0] matches DialogueAction::SendApi(m0) && m0@
                                == MessageV::Onion(
                                OnionV::TunnelReady(
                                    crate::onion::OnionTunnelPayloadV {
                                        tunnel_id: old(ids).next_tunnel_id,
                                        payload: old(self).build.hostkey@,
                                    },
                                ),
                            )
                        }
                    },
                    _ => final(self).breached(*old(self), *old(ids), *final(ids), r),
                },
                DialoguePhase::Active => match msg@ {
                    MessageV::Onion(OnionV::TunnelData(p)) => {
                        &&& r matches Ok(acts)
                        &&& final(self).phase == DialoguePhase::Active
                        &&& final(self).hops@ == old(self).hops@
                        &&& final(self).tunnel_id == old(self).tunnel_id
                        &&& *final(ids) == *old(ids)
                        &&& acts@.len() == 1
                        &&& acts@[0] matches DialogueAction::RelayData(v) && v@ == p.payload
                    },
                    MessageV::Onion(OnionV::TunnelDestroy(_)) => {
                        &&& r matches Ok(acts)
                        &&& acts@.len() == 0
                        &&& final(self).phase == DialoguePhase::Destroyed
                        &&& final(self).hops@ == old(self).hops@
                        &&& *final(ids) == *old(ids)
                    },
                    _ => final(self).breached(*old(self), *old(ids), *final(ids), r),
                },
                _ => false,
            },
    {
        match self.phase {
            DialoguePhase::AwaitingPeer => match msg {
                Message::Rps(Rps::Peer(peer)) => {
                    let request_id = ids.fresh_request_id();
                    let mut acts: Vec<DialogueAction> = Vec::new();
                    acts.push(
                        DialogueAction::SendApi(
                            Message::Auth(
                                Auth::SessionStart(
                                    AuthSessionStart {
                                        request_id,
                                        hostkey: clone_bytes(&peer.hostkey),
                                    },
                                ),
                            ),
                        ),
                    );
                    if self.hops.len() == 0 {
                        acts.push(DialogueAction::ConnectDirect(peer.ip_addr, peer.port));
                    } else {
                        let entry_ip = self.hops[0].peer.ip_addr;
                        let entry_port = self.hops[0].peer.port;
                        acts.push(DialogueAction::ConnectRelayed(entry_ip, entry_port));
                    }
                    self.pending_peer = Some(peer);
                    self.phase = DialoguePhase::AwaitingHs1;
                    Ok(acts)
                },
                _ => {
                    self.phase = DialoguePhase::Failed;
                    Err(NodeError::ProtocolBreach)
                },
            },
            DialoguePhase::AwaitingHs1 => match msg {
                Message::Auth(Auth::SessionHS1(hs)) => {
                    let mut acts: Vec<DialogueAction> = Vec::new();
                    acts.push(DialogueAction::SendPeer(Message::Auth(Auth::SessionHS1(hs))));
                    self.phase = DialoguePhase::AwaitingHs2;
                    Ok(acts)
                },
                _ => {
                    self.phase = DialoguePhase::Failed;
                    Err(NodeError::ProtocolBreach)
                },
            },
            DialoguePhase::AwaitingHs2 => match msg {
                Message::Auth(Auth::SessionHS2(hs)) => {
                    let pp = self.pending_peer.take();
                    let peer = match pp {
                        Some(p) => p,
                        None => {
                            proof {
                                assert(false);
                            }
                            return Err(NodeError::ProtocolBreach);
                        },
                    };
                    self.hops.push(AuthSession { session_id: hs.session_id, peer });
                    let mut acts: Vec<DialogueAction> = Vec::new();
                    if self.hops.len() < self.min_hop_count as usize {
                        acts.push(
                            DialogueAction::SendApi(Message::Rps(Rps::Query(RpsQuery {  }))),
                        );
                        self.phase = DialoguePhase::AwaitingPeer;
                    } else {
                        let tunnel_id = ids.fresh_tunnel_id();
                        acts.push(
                            DialogueAction::SendApi(
                                Message::Onion(
                                    Onion::TunnelReady(
                                        OnionTunnelPayload {
                                            tunnel_id,
                                            payload: clone_bytes(&self.build.hostkey),
                                        },
                                    ),
                                ),
                            ),
                        );
                        self.tunnel_id = Some(tunnel_id);
                        self.phase = DialoguePhase::Active;
                    }
                    Ok(acts)
                },
                _ => {
                    self.phase = DialoguePhase::Failed;
                    Err(NodeError::ProtocolBreach)
                },
            },
            DialoguePhase::Active => match msg {
                Message::Onion(Onion::TunnelData(p)) => {
                    let mut acts: Vec<DialogueAction> = Vec::new();
                    acts.push(DialogueAction::RelayData(p.payload));
                    Ok(acts)
                },
                Message::Onion(Onion::TunnelDestroy(_)) => {
                    self.phase = DialoguePhase::Destroyed;
                    Ok(Vec::new())
                },
                _ => {
                    self.phase = DialoguePhase::Failed;
                    Err(NodeError::ProtocolBreach)
                },
            },
            _ => {
                proof {
                    assert(false);
                }
                Err(NodeError::ProtocolBreach)
            },
        }
    }

    /// What a protocol breach leaves behind: the dialogue failed, its hop
    /// list untouched, the allocator untouched.
    pub open spec fn breached(
        self,
        pre: Dialogue,
        ids_pre: IdAllocator,
        ids_post: IdAllocator,
        r: Result<Vec<DialogueAction>, NodeError>,
    ) -> bool {
        &&& r == Err::<Vec<DialogueAction>, NodeError>(NodeError::ProtocolBreach)
        &&& self.phase == DialoguePhase::Failed
        &&& self.hops@ == pre.hops@
        &&& self.tunnel_id == pre.tunnel_id
        &&& ids_post == ids_pre
    }

    /// The session-close orders for every established hop, in hop order;
    /// they are sent when the tunnel tears down or the dialogue aborts.
    pub fn close_sessions(&self) -> (r: Vec<Message>)
        ensures
            r@.len() == self.hops@.len(),
            forall|i: int|
                0 <= i < r@.len() ==> #[trigger] r@[i]@ == MessageV::Auth(
                    AuthV::SessionClose(
                        AuthSessionClose { session_id: self.hops@[i].session_id },
                    ),
                ),
    {
        let mut out: Vec<Message> = Vec::new();
        let n: usize = self.hops.len();
        let mut k: usize = 0;
        while k < n
            invariant
                k <= n,
                n == self.hops@.len(),
                out@.len() == k,
                forall|i: int|
                    0 <= i < k as int ==> #[trigger] out@[i]@ == MessageV::Auth(
                        AuthV::SessionClose(
                            AuthSessionClose { session_id: self.hops@[i].session_id },
                        ),
                    ),
            decreases n - k,
        {
            let sid = self.hops[k].session_id;
            out.push(
                Message::Auth(Auth::SessionClose(AuthSessionClose { session_id: sid })),
            );
            k = k + 1;
        }
        out
    }
}

/// Copy a byte vector (sessions keep their own copy of shared bytes).
fn clone_bytes(b: &Vec<u8>) -> (r: Vec<u8>)
    ensures
        r@ == b@,
{
    crate::wire::sub_to_vec(b.as_slice(), 0, b.len())
}

} // verus!
