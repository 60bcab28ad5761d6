//! Messages of the session (Auth) protocol family: session lifecycle and the
//! cipher sub-protocol. Each struct's layout is given by a spec function; the
//! executable encoders and decoders are proved against it.

use vstd::prelude::*;

use crate::errors::NodeError;
use crate::wire::be16;
use crate::wire::flag_byte;
use crate::wire::reserved2;
use crate::wire::reserved3;
use crate::wire::reserved4;
use crate::wire::be32;
use crate::wire::bit0;
use crate::wire::lemma_be16_value;
use crate::wire::lemma_be32_value;
use crate::wire::put_bytes;
use crate::wire::put_u16;
use crate::wire::put_u32;
use crate::wire::read_u16;
use crate::wire::read_u32;
use crate::wire::spec_bit0;
use crate::wire::sub_to_vec;
use crate::wire::u16_at;
use crate::wire::u32_at;

verus! {

/// A session-start request towards the Auth capability.
pub struct AuthSessionStart {
    pub request_id: u32,
    pub hostkey: Vec<u8>,
}

/// Mathematical value of an [`AuthSessionStart`].
#[verifier::ext_equal]
pub struct AuthSessionStartV {
    pub request_id: u32,
    pub hostkey: Seq<u8>,
}

impl View for AuthSessionStart {
    type V = AuthSessionStartV;

    open spec fn view(&self) -> AuthSessionStartV {
        AuthSessionStartV { request_id: self.request_id, hostkey: self.hostkey@ }
    }
}

/// Layout: 4 reserved bytes, 32-bit request id, remaining bytes the hostkey.
pub open spec fn spec_encode_session_start(m: AuthSessionStartV) -> Seq<u8> {
    reserved4() + be32(m.request_id) + m.hostkey
}

impl AuthSessionStart {
    pub fn encode(self) -> (r: Result<Vec<u8>, NodeError>)
        ensures
            r matches Ok(v) && v@ == spec_encode_session_start(self@),
    {
        let mut out: Vec<u8> = Vec::new();
        out.push(0u8);
        out.push(0u8);
        out.push(0u8);
        out.push(0u8);
        put_u32(&mut out, self.request_id);
        put_bytes(&mut out, self.hostkey.as_slice());
        assert(out@ =~= spec_encode_session_start(self@));
        Ok(out)
    }
}

/// A handshake-phase message (first or second phase share the layout).
pub struct AuthSessionHS {
    pub session_id: u16,
    pub request_id: u32,
    pub payload: Vec<u8>,
}

/// Mathematical value of an [`AuthSessionHS`].
#[verifier::ext_equal]
pub struct AuthSessionHSV {
    pub session_id: u16,
    pub request_id: u32,
    pub payload: Seq<u8>,
}

impl View for AuthSessionHS {
    type V = AuthSessionHSV;

    open spec fn view(&self) -> AuthSessionHSV {
        AuthSessionHSV {
            session_id: self.session_id,
            request_id: self.request_id,
            payload: self.payload@,
        }
    }
}

/// Layout: 2 reserved bytes, 16-bit session id, 32-bit request id, payload.
pub open spec fn spec_encode_session_hs(m: AuthSessionHSV) -> Seq<u8> {
    reserved2() + be16(m.session_id) + be32(m.request_id) + m.payload
}

/// The handshake message spelled in `b`, if `b` is long enough to hold its
/// fixed fields.
pub open spec fn parse_session_hs(b: Seq<u8>) -> Option<AuthSessionHSV> {
    if b.len() < 8 {
        None
    } else {
        Some(
            AuthSessionHSV {
                session_id: u16_at(b, 2),
                request_id: u32_at(b, 4),
                payload: b.skip(8),
            },
        )
    }
}

/// A handshake message decodes back to the value it was encoded from.
pub proof fn lemma_session_hs_round_trip(m: AuthSessionHSV)
    ensures
        parse_session_hs(spec_encode_session_hs(m)) == Some(m),
{
    let enc = spec_encode_session_hs(m);
    assert(enc[2] == be16(m.session_id)[0] && enc[3] == be16(m.session_id)[1]);
    lemma_be16_value(m.session_id);
    assert(enc[4] == be32(m.request_id)[0] && enc[5] == be32(m.request_id)[1] && enc[6] == be32(
        m.request_id,
    )[2] && enc[7] == be32(m.request_id)[3]);
    lemma_be32_value(m.request_id);
    assert(enc.skip(8) =~= m.payload);
}

impl AuthSessionHS {
    pub fn decode(bytes: Vec<u8>) -> (r: Result<AuthSessionHS, NodeError>)
        ensures
            match parse_session_hs(bytes@) {
                Some(m) => r matches Ok(x) && x@ == m,
                None => r == Err::<AuthSessionHS, NodeError>(NodeError::MalformedMessage),
            },
    {
        let n: usize = bytes.len();
        if n < 8 {
            return Err(NodeError::MalformedMessage);
        }
        let s = bytes.as_slice();
        let session_id = read_u16(s, 2);
        let request_id = read_u32(s, 4);
        let payload = sub_to_vec(s, 8, n);
        assert(payload@ =~= bytes@.skip(8));
        Ok(AuthSessionHS { session_id, request_id, payload })
    }

    pub fn encode(self) -> (r: Result<Vec<u8>, NodeError>)
        ensures
            r matches Ok(v) && v@ == spec_encode_session_hs(self@),
    {
        let mut out: Vec<u8> = Vec::new();
        out.push(0u8);
        out.push(0u8);
        put_u16(&mut out, self.session_id);
        put_u32(&mut out, self.request_id);
        put_bytes(&mut out, self.payload.as_slice());
        assert(out@ =~= spec_encode_session_hs(self@));
        Ok(out)
    }
}

/// The node's answer after the first handshake phase.
pub struct AuthSessionHS1Response {
    pub request_id: u32,
    pub payload: Vec<u8>,
}

/// Mathematical value of an [`AuthSessionHS1Response`].
#[verifier::ext_equal]
pub struct AuthSessionHS1ResponseV {
    pub request_id: u32,
    pub payload: Seq<u8>,
}

impl View for AuthSessionHS1Response {
    type V = AuthSessionHS1ResponseV;

    open spec fn view(&self) -> AuthSessionHS1ResponseV {
        AuthSessionHS1ResponseV { request_id: self.request_id, payload: self.payload@ }
    }
}

/// Layout: 4 reserved bytes, 32-bit request id, payload.
pub open spec fn spec_encode_session_hs1_response(m: AuthSessionHS1ResponseV) -> Seq<u8> {
    reserved4() + be32(m.request_id) + m.payload
}

impl AuthSessionHS1Response {
    pub fn encode(self) -> (r: Result<Vec<u8>, NodeError>)
        ensures
            r matches Ok(v) && v@ == spec_encode_session_hs1_response(self@),
    {
        let mut out: Vec<u8> = Vec::new();
        out.push(0u8);
        out.push(0u8);
        out.push(0u8);
        out.push(0u8);
        put_u32(&mut out, self.request_id);
        put_bytes(&mut out, self.payload.as_slice());
        assert(out@ =~= spec_encode_session_hs1_response(self@));
        Ok(out)
    }
}

/// A cipher encrypt/decrypt request towards the Auth capability.
pub struct AuthCipherCrypt {
    pub session_id: u16,
    pub request_id: u32,
    pub cleartext: bool,
    pub payload: Vec<u8>,
}

/// Mathematical value of an [`AuthCipherCrypt`].
#[verifier::ext_equal]
pub struct AuthCipherCryptV {
    pub session_id: u16,
    pub request_id: u32,
    pub cleartext: bool,
    pub payload: Seq<u8>,
}

impl View for AuthCipherCrypt {
    type V = AuthCipherCryptV;

    open spec fn view(&self) -> AuthCipherCryptV {
        AuthCipherCryptV {
            session_id: self.session_id,
            request_id: self.request_id,
            cleartext: self.cleartext,
            payload: self.payload@,
        }
    }
}

/// Layout: 3 reserved bytes, flag byte (bit 0 the cleartext flag), 32-bit
/// request id, 16-bit session id, payload.
pub open spec fn spec_encode_cipher_crypt(m: AuthCipherCryptV) -> Seq<u8> {
    reserved3() + seq![flag_byte(m.cleartext)] + be32(m.request_id) + be16(m.session_id)
        + m.payload
}

impl AuthCipherCrypt {
    pub fn encode(self) -> (r: Result<Vec<u8>, NodeError>)
        ensures
            r matches Ok(v) && v@ == spec_encode_cipher_crypt(self@),
    {
        let mut out: Vec<u8> = Vec::new();
        out.push(0u8);
        out.push(0u8);
        out.push(0u8);
        out.push(if self.cleartext {
            1u8
        } else {
            0u8
        });
        put_u32(&mut out, self.request_id);
        put_u16(&mut out, self.session_id);
        put_bytes(&mut out, self.payload.as_slice());
        assert(out@ =~= spec_encode_cipher_crypt(self@));
        Ok(out)
    }
}

/// The Auth capability's answer to a cipher request.
pub struct AuthCipherCryptResp {
    pub request_id: u32,
    pub cleartext: bool,
    pub payload: Vec<u8>,
}

/// Mathematical value of an [`AuthCipherCryptResp`].
#[verifier::ext_equal]
pub struct AuthCipherCryptRespV {
    pub request_id: u32,
    pub cleartext: bool,
    pub payload: Seq<u8>,
}

impl View for AuthCipherCryptResp {
    type V = AuthCipherCryptRespV;

    open spec fn view(&self) -> AuthCipherCryptRespV {
        AuthCipherCryptRespV {
            request_id: self.request_id,
            cleartext: self.cleartext,
            payload: self.payload@,
        }
    }
}

/// The cipher response spelled in `b`: 3 reserved bytes, flag byte (bit 0
/// the cleartext flag), 32-bit request id, payload.
pub open spec fn parse_cipher_crypt_resp(b: Seq<u8>) -> Option<AuthCipherCryptRespV> {
    if b.len() < 8 {
        None
    } else {
        Some(
            AuthCipherCryptRespV {
                request_id: u32_at(b, 4),
                cleartext: spec_bit0(b[3]),
                payload: b.skip(8),
            },
        )
    }
}

impl AuthCipherCryptResp {
    pub fn decode(bytes: Vec<u8>) -> (r: Result<AuthCipherCryptResp, NodeError>)
        ensures
            match parse_cipher_crypt_resp(bytes@) {
                Some(m) => r matches Ok(x) && x@ == m,
                None => r == Err::<AuthCipherCryptResp, NodeError>(NodeError::MalformedMessage),
            },
    {
        let n: usize = bytes.len();
        if n < 8 {
            return Err(NodeError::MalformedMessage);
        }
        let s = bytes.as_slice();
        let flags: u8 = *vstd::slice::slice_index_get(s, 3);
        let cleartext = bit0(flags);
        let request_id = read_u32(s, 4);
        let payload = sub_to_vec(s, 8, n);
        assert(payload@ =~= bytes@.skip(8));
        Ok(AuthCipherCryptResp { request_id, cleartext, payload })
    }
}

/// An order to close one established session.
#[derive(Clone, Copy, Debug, PartialEq, Eq, Structural)]
pub struct AuthSessionClose {
    pub session_id: u16,
}

/// Layout: 2 reserved bytes, 16-bit session id.
pub open spec fn spec_encode_session_close(m: AuthSessionClose) -> Seq<u8> {
    reserved2() + be16(m.session_id)
}

impl AuthSessionClose {
    pub fn encode(self) -> (r: Result<Vec<u8>, NodeError>)
        ensures
            r matches Ok(v) && v@ == spec_encode_session_close(self),
    {
        let mut out: Vec<u8> = Vec::new();
        out.push(0u8);
        out.push(0u8);
        put_u16(&mut out, self.session_id);
        assert(out@ =~= spec_encode_session_close(self));
        Ok(out)
    }
}

/// The Auth capability's failure notice for one request.
#[derive(Clone, Copy, Debug, PartialEq, Eq, Structural)]
pub struct AuthSessionError {
    pub request_id: u32,
}

/// The session error spelled in `b`: 4 reserved bytes, 32-bit request id.
pub open spec fn parse_session_error(b: Seq<u8>) -> Option<AuthSessionError> {
    if b.len() < 8 {
        None
    } else {
        Some(AuthSessionError { request_id: u32_at(b, 4) })
    }
}

impl AuthSessionError {
    pub fn decode(bytes: Vec<u8>) -> (r: Result<AuthSessionError, NodeError>)
        ensures
            match parse_session_error(bytes@) {
                Some(m) => r matches Ok(x) && x == m,
                None => r == Err::<AuthSessionError, NodeError>(NodeError::MalformedMessage),
            },
    {
        let n: usize = bytes.len();
        if n < 8 {
            return Err(NodeError::MalformedMessage);
        }
        let request_id = read_u32(bytes.as_slice(), 4);
        Ok(AuthSessionError { request_id })
    }
}

/// The session-protocol family.
pub enum Auth {
    SessionStart(AuthSessionStart),
    SessionHS1(AuthSessionHS),
    SessionIncommingHS1(AuthSessionHS1Response),
    SessionHS2(AuthSessionHS),
    SessionIncommingHS2(AuthSessionHS),
    CipherEncrypt(AuthCipherCrypt),
    CipherEncryptResp(AuthCipherCryptResp),
    CipherDecrypt(AuthCipherCrypt),
    CipherDecryptResp(AuthCipherCryptResp),
    SessionClose(AuthSessionClose),
    SessionError(AuthSessionError),
}

/// Mathematical value of an [`Auth`] message.
#[verifier::ext_equal]
pub enum AuthV {
    SessionStart(AuthSessionStartV),
    SessionHS1(AuthSessionHSV),
    SessionIncommingHS1(AuthSessionHS1ResponseV),
    SessionHS2(AuthSessionHSV),
    SessionIncommingHS2(AuthSessionHSV),
    CipherEncrypt(AuthCipherCryptV),
    CipherEncryptResp(AuthCipherCryptRespV),
    CipherDecrypt(AuthCipherCryptV),
    CipherDecryptResp(AuthCipherCryptRespV),
    SessionClose(AuthSessionClose),
    SessionError(AuthSessionError),
}

impl View for Auth {
    type V = AuthV;

    open spec fn view(&self) -> AuthV {
        match self {
            Auth::SessionStart(m) => AuthV::SessionStart(m@),
            Auth::SessionHS1(m) => AuthV::SessionHS1(m@),
            Auth::SessionIncommingHS1(m) => AuthV::SessionIncommingHS1(m@),
            Auth::SessionHS2(m) => AuthV::SessionHS2(m@),
            Auth::SessionIncommingHS2(m) => AuthV::SessionIncommingHS2(m@),
            Auth::CipherEncrypt(m) => AuthV::CipherEncrypt(m@),
            Auth::CipherEncryptResp(m) => AuthV::CipherEncryptResp(m@),
            Auth::CipherDecrypt(m) => AuthV::CipherDecrypt(m@),
            Auth::CipherDecryptResp(m) => AuthV::CipherDecryptResp(m@),
            Auth::SessionClose(m) => AuthV::SessionClose(*m),
            Auth::SessionError(m) => AuthV::SessionError(*m),
        }
    }
}

} // verus!
