//! Trusted boundary to the MessagePack serialization (the `rmp-serde` crate).
//!
//! A peer-to-peer message travels as the MessagePack encoding of the pair
//! `(tag, data)`. What those bytes look like is not restated here: the
//! encoding is named by [`msgpack_pair`], what one parse step yields by
//! [`msgpack_pair_parse`], and the two wrappers below tie the names to the
//! outside calls.

use vstd::prelude::*;

use crate::p2p::data_view;

verus! {

/// The MessagePack encoding of the pair `(tag, data)`; it depends on the
/// pair alone.
pub uninterp spec fn msgpack_pair(tag: u8, data: Option<Seq<u8>>) -> Seq<u8>;

/// What parsing one MessagePack value as such a pair from the front of `b`
/// yields; `None` when `b` does not start with one. It depends on `b` alone.
pub uninterp spec fn msgpack_pair_parse(b: Seq<u8>) -> Option<(u8, Option<Seq<u8>>)>;

/// Relies on `rmp_serde::to_vec`: the MessagePack encoding of a pair of a
/// `u8` and an optional byte vector. Writing into a fresh vector cannot
/// fail and these element types never refuse serialization, so the call is
/// total. `rmp_serde::from_slice` reads back what `to_vec` wrote (the
/// second clause).
#[verifier::external_body]
pub fn msgpack_encode_pair(tag: u8, data: &Option<Vec<u8>>) -> (r: Vec<u8>)
    ensures
        r@ == msgpack_pair(tag, data_view(*data)),
        msgpack_pair_parse(r@) == Some((tag, data_view(*data))),
{
    rmp_serde::to_vec(&(tag, data)).expect("writing MessagePack into a vector cannot fail")
}

/// Relies on `rmp_serde::from_slice`: parsing one MessagePack value as a
/// pair of a `u8` and an optional byte vector. A successful parse consumes
/// one value from the front of `bytes` and starts with one of the three
/// MessagePack array markers; trailing bytes are ignored.
#[verifier::external_body]
pub fn msgpack_decode_pair(bytes: &[u8]) -> (r: Option<(u8, Option<Vec<u8>>)>)
    ensures
        match r {
            Some(p) => msgpack_pair_parse(bytes@) == Some((p.0, data_view(p.1))),
            None => msgpack_pair_parse(bytes@) is None,
        },
        r is Some ==> bytes@.len() > 0 && (bytes@[0] == 0x92 || bytes@[0] == 0xdc || bytes@[0]
            == 0xdd),
{
    match rmp_serde::from_slice::<(u8, Option<Vec<u8>>)>(bytes) {
        Ok(p) => Some(p),
        Err(_) => None,
    }
}

} // verus!
