//! The layered-encryption request sequence over an established hop chain.
//!
//! Given the ordered hop sessions and a cleartext payload, the first cipher
//! request goes out with the cleartext flag set; for each remaining hop a
//! further request wraps the previous answer's ciphertext with the flag
//! cleared. Every request draws a fresh request id. Every request — the
//! later hops' included — is bound to the *entry* hop's session id; whether
//! relaying through the entry session is the intended design or a defect is
//! an open question of the protocol, and the observable behavior is kept
//! here as it stands rather than silently resolved.
//!
//! The machine decides; the cipher work itself is the Auth capability's.
//! Its runner sends each request and feeds the answer back in.

use vstd::prelude::*;

use crate::auth::Auth;
use crate::auth::AuthCipherCrypt;
use crate::auth::AuthCipherCryptV;
use crate::auth::AuthV;
use crate::codec::Message;
use crate::codec::MessageV;
use crate::dialogue::AuthSession;
use crate::errors::NodeError;
use crate::ids::wrap_next;
use crate::ids::IdAllocator;

verus! {

/// What the sequencer hands back after an answer: the next request to
/// send, or the fully wrapped payload.
pub enum LayerStep {
    Request(AuthCipherCrypt),
    Output(Vec<u8>),
}

/// The request sequencer for one payload over one hop chain.
pub struct LayerCrypt {
    /// The entry hop's session id; every request is bound to it.
    pub entry_session: u16,
    /// How many hops the chain has; one request goes out per hop.
    pub total_hops: usize,
    /// How many requests have gone out so far.
    pub issued: usize,
}

impl LayerCrypt {
    /// The sequencer's invariant: the first request is out, the count never
    /// passes the hop count.
    pub open spec fn wf(self) -> bool {
        1 <= self.issued <= self.total_hops
    }

    /// Start the sequence: the first request carries the cleartext and the
    /// set flag, bound to the entry hop's session, under a fresh request id.
    pub fn begin(hops: &Vec<AuthSession>, payload: Vec<u8>, ids: &mut IdAllocator) -> (r: (
        LayerCrypt,
        AuthCipherCrypt,
    ))
        requires
            hops@.len() >= 1,
        ensures
            r.0.wf(),
            r.0.entry_session == hops@[0].session_id,
            r.0.total_hops == hops@.len(),
            r.0.issued == 1,
            r.1@ == (AuthCipherCryptV {
                session_id: hops@[0].session_id,
                request_id: old(ids).next_request_id,
                cleartext: true,
                payload: payload@,
            }),
            final(ids).next_request_id == wrap_next(old(ids).next_request_id),
            final(ids).next_tunnel_id == old(ids).next_tunnel_id,
    {
        let request_id = ids.fresh_request_id();
        let entry = hops[0].session_id;
        let machine = LayerCrypt { entry_session: entry, total_hops: hops.len(), issued: 1 };
        let request = AuthCipherCrypt { session_id: entry, request_id, cleartext: true, payload };
        (machine, request)
    }

    /// Take the capability's answer to the last request. While hops remain,
    /// the next request wraps the answer's ciphertext with the flag
    /// cleared, again bound to the entry session, under a fresh request id;
    /// after the last hop the answer's payload is the result. Anything but
    /// a cipher-encrypt answer is a protocol breach.
    pub fn on_response(&mut self, msg: Message, ids: &mut IdAllocator) -> (r: Result<
        LayerStep,
        NodeError,
    >)
        requires
            old(self).wf(),
        ensures
            match msg@ {
                MessageV::Auth(AuthV::CipherEncryptResp(resp)) => {
                    &&& final(self).entry_session == old(self).entry_session
                    &&& final(self).total_hops == old(self).total_hops
                    &&& final(self).wf()
                    &&& if old(self).issued < old(self).total_hops {
                        &&& r matches Ok(LayerStep::Request(q)) && q@ == (AuthCipherCryptV {
                            session_id: old(self).entry_session,
                            request_id: old(ids).next_request_id,
                            cleartext: false,
                            payload: resp.payload,
                        })
                        &&& final(self).issued == old(self).issued + 1
                        &&& final(ids).next_request_id == wrap_next(old(ids).next_request_id)
                        &&& final(ids).next_tunnel_id == old(ids).next_tunnel_id
                    } else {
                        &&& r matches Ok(LayerStep::Output(v)) && v@ == resp.payload
                        &&& final(self).issued == old(self).issued
                        &&& *final(ids) == *old(ids)
                    }
                },
                _ => {
                    &&& r == Err::<LayerStep, NodeError>(NodeError::ProtocolBreach)
                    &&& *final(self) == *old(self)
                    &&& *final(ids) == *old(ids)
                },
            },
    {
        match msg {
            Message::Auth(Auth::CipherEncryptResp(resp)) => {
                if self.issued < self.total_hops {
                    let request_id = ids.fresh_request_id();
                    self.issued = self.issued + 1;
                    Ok(
                        LayerStep::Request(
                            AuthCipherCrypt {
                                session_id: self.entry_session,
                                request_id,
                                cleartext: false,
                                payload: resp.payload,
                            },
                        ),
                    )
                } else {
                    Ok(LayerStep::Output(resp.payload))
                }
            },
            _ => Err(NodeError::ProtocolBreach),
        }
    }
}

} // verus!
