//! Messages exchanged directly between peers.
//!
//! Unlike the enveloped families, a peer-to-peer message travels in a
//! self-describing tagged serialization (MessagePack, through [`crate::msgpack`]):
//! a pair of a variant tag and an optional opaque payload.

use vstd::prelude::*;

verus! {

/// The handshake and forwarding opcodes of the peer protocol.
#[derive(Clone, Copy, Debug, PartialEq, Eq, Structural)]
pub enum P2P {
    Knock,
    WhosThere,
    Handshake,
    Incomming,
    Forward,
    Data,
}

/// The wire tag of each opcode in the tagged serialization.
pub open spec fn p2p_tag(t: P2P) -> u8 {
    match t {
        P2P::Knock => 0,
        P2P::WhosThere => 1,
        P2P::Handshake => 2,
        P2P::Incomming => 3,
        P2P::Forward => 4,
        P2P::Data => 5,
    }
}

/// The opcode a wire tag stands for, if any.
pub open spec fn p2p_of_tag(tag: u8) -> Option<P2P> {
    if tag == 0 {
        Some(P2P::Knock)
    } else if tag == 1 {
        Some(P2P::WhosThere)
    } else if tag == 2 {
        Some(P2P::Handshake)
    } else if tag == 3 {
        Some(P2P::Incomming)
    } else if tag == 4 {
        Some(P2P::Forward)
    } else if tag == 5 {
        Some(P2P::Data)
    } else {
        None
    }
}

/// Tag and opcode translate back and forth without loss.
pub proof fn lemma_p2p_tag_round_trip(t: P2P)
    ensures
        p2p_of_tag(p2p_tag(t)) == Some(t),
{
}

/// Compute the wire tag of an opcode.
pub fn tag_of_p2p(t: &P2P) -> (r: u8)
    ensures
        r == p2p_tag(*t),
{
    match t {
        P2P::Knock => 0,
        P2P::WhosThere => 1,
        P2P::Handshake => 2,
        P2P::Incomming => 3,
        P2P::Forward => 4,
        P2P::Data => 5,
    }
}

/// Look a wire tag up.
pub fn p2p_for_tag(tag: u8) -> (r: Option<P2P>)
    ensures
        r == p2p_of_tag(tag),
{
    if tag == 0 {
        Some(P2P::Knock)
    } else if tag == 1 {
        Some(P2P::WhosThere)
    } else if tag == 2 {
        Some(P2P::Handshake)
    } else if tag == 3 {
        Some(P2P::Incomming)
    } else if tag == 4 {
        Some(P2P::Forward)
    } else if tag == 5 {
        Some(P2P::Data)
    } else {
        None
    }
}

/// The bytes an optional opaque payload holds.
pub open spec fn data_view(d: Option<Vec<u8>>) -> Option<Seq<u8>> {
    match d {
        Some(v) => Some(v@),
        None => None,
    }
}

/// A peer-to-peer message: an opcode and an optional opaque payload.
pub struct P2PMessage {
    pub message_type: P2P,
    pub data: Option<Vec<u8>>,
}

/// Mathematical value of a [`P2PMessage`].
#[verifier::ext_equal]
pub struct P2PMessageV {
    pub message_type: P2P,
    pub data: Option<Seq<u8>>,
}

impl View for P2PMessage {
    type V = P2PMessageV;

    open spec fn view(&self) -> P2PMessageV {
        P2PMessageV { message_type: self.message_type, data: data_view(self.data) }
    }
}

impl P2PMessage {
    /// A message of the given opcode with no payload.
    pub fn new(message_type: P2P) -> (r: P2PMessage)
        ensures
            r@ == (P2PMessageV { message_type, data: None }),
    {
        P2PMessage { message_type, data: None }
    }
}

} // verus!
