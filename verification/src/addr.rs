//! The IP address as the wire codec carries it.
//!
//! Peer-sampling and tunnel-build frames hold either four octets (IPv4) or
//! eight big-endian 16-bit groups (IPv6), selected by bit 0 of a version
//! flag byte. The codec works on this plain representation; turning it into
//! an operating-system address type is left to the code that dials sockets.

use vstd::prelude::*;

use crate::wire::be16;
use crate::wire::lemma_be16_value;
use crate::wire::put_u16;
use crate::wire::read_u16;
use crate::wire::u16_at;
use crate::wire::u16_of;

verus! {

/// Four octets, or eight 16-bit groups.
#[derive(Clone, Copy, Debug, PartialEq, Eq, Structural)]
pub enum IpAddress {
    V4(u8, u8, u8, u8),
    V6(u16, u16, u16, u16, u16, u16, u16, u16),
}

impl IpAddress {
    /// Which version the address is; bit 0 of the flag byte on the wire.
    pub open spec fn spec_is_v6(self) -> bool {
        self matches IpAddress::V6(..)
    }

    /// Which version the address is; bit 0 of the flag byte on the wire.
    pub fn is_v6(&self) -> (r: bool)
        ensures
            r == self.spec_is_v6(),
    {
        match self {
            IpAddress::V4(..) => false,
            IpAddress::V6(..) => true,
        }
    }
}

/// The address field: 4 bytes for IPv4, 16 for IPv6.
pub open spec fn spec_ip_bytes(ip: IpAddress) -> Seq<u8> {
    match ip {
        IpAddress::V4(a, b, c, d) => seq![a, b, c, d],
        IpAddress::V6(g0, g1, g2, g3, g4, g5, g6, g7) => be16(g0) + be16(g1) + be16(g2) + be16(g3)
            + be16(g4) + be16(g5) + be16(g6) + be16(g7),
    }
}

/// The address field is 16 bytes for IPv6 and 4 for IPv4: the field after
/// it starts 12 bytes later in the one case than in the other.
pub proof fn lemma_ip_bytes_len(ip: IpAddress)
    ensures
        spec_ip_bytes(ip).len() == if ip.spec_is_v6() {
            16int
        } else {
            4int
        },
{
}

/// The address spelled at position `at` of `b`, read as the version that
/// `v6` selects.
pub open spec fn parse_ip(b: Seq<u8>, at: int, v6: bool) -> IpAddress {
    if v6 {
        IpAddress::V6(
            u16_at(b, at),
            u16_at(b, at + 2),
            u16_at(b, at + 4),
            u16_at(b, at + 6),
            u16_at(b, at + 8),
            u16_at(b, at + 10),
            u16_at(b, at + 12),
            u16_at(b, at + 14),
        )
    } else {
        IpAddress::V4(b[at], b[at + 1], b[at + 2], b[at + 3])
    }
}

/// Parsing the bytes that `spec_ip_bytes` lays down, at any position,
/// yields the address again.
pub proof fn lemma_ip_round_trip(ip: IpAddress, b: Seq<u8>, at: int)
    requires
        0 <= at,
        at + spec_ip_bytes(ip).len() <= b.len(),
        b.subrange(at, at + spec_ip_bytes(ip).len()) == spec_ip_bytes(ip),
    ensures
        parse_ip(b, at, ip.spec_is_v6()) == ip,
{
    match ip {
        IpAddress::V4(a0, a1, a2, a3) => {
            let field = spec_ip_bytes(ip);
            assert forall|k: int| 0 <= k < 4 implies b[at + k] == field[k] by {
                assert(field[k] == b.subrange(at, at + 4)[k]);
            }
            assert(b[at + 0] == field[0]);
            assert(b[at + 1] == field[1]);
            assert(b[at + 2] == field[2]);
            assert(b[at + 3] == field[3]);
            assert(parse_ip(b, at, false) == IpAddress::V4(b[at], b[at + 1], b[at + 2], b[at + 3]));
        },
        IpAddress::V6(g0, g1, g2, g3, g4, g5, g6, g7) => {
            let field = spec_ip_bytes(ip);
            assert forall|k: int| 0 <= k < 16 implies b[at + k] == field[k] by {
                assert(field[k] == b.subrange(at, at + 16)[k]);
            }
            assert(field =~= be16(g0) + be16(g1) + be16(g2) + be16(g3) + be16(g4) + be16(g5)
                + be16(g6) + be16(g7));
            assert(field[0] == be16(g0)[0] && field[1] == be16(g0)[1]);
            assert(field[2] == be16(g1)[0] && field[3] == be16(g1)[1]);
            assert(field[4] == be16(g2)[0] && field[5] == be16(g2)[1]);
            assert(field[6] == be16(g3)[0] && field[7] == be16(g3)[1]);
            assert(field[8] == be16(g4)[0] && field[9] == be16(g4)[1]);
            assert(field[10] == be16(g5)[0] && field[11] == be16(g5)[1]);
            assert(field[12] == be16(g6)[0] && field[13] == be16(g6)[1]);
            assert(field[14] == be16(g7)[0] && field[15] == be16(g7)[1]);
            lemma_be16_value(g0);
            lemma_be16_value(g1);
            lemma_be16_value(g2);
            lemma_be16_value(g3);
            lemma_be16_value(g4);
            lemma_be16_value(g5);
            lemma_be16_value(g6);
            lemma_be16_value(g7);
            assert(u16_at(b, at) == u16_of(field[0], field[1]));
            assert(u16_at(b, at + 2) == u16_of(field[2], field[3]));
            assert(u16_at(b, at + 4) == u16_of(field[4], field[5]));
            assert(u16_at(b, at + 6) == u16_of(field[6], field[7]));
            assert(u16_at(b, at + 8) == u16_of(field[8], field[9]));
            assert(u16_at(b, at + 10) == u16_of(field[10], field[11]));
            assert(u16_at(b, at + 12) == u16_of(field[12], field[13]));
            assert(u16_at(b, at + 14) == u16_of(field[14], field[15]));
        },
    }
}

/// Append the address field of `ip` to `out`.
pub fn put_ip(out: &mut Vec<u8>, ip: &IpAddress)
    ensures
        final(out)@ == old(out)@ + spec_ip_bytes(*ip),
{
    match ip {
        IpAddress::V4(a, b, c, d) => {
            out.push(*a);
            out.push(*b);
            out.push(*c);
            out.push(*d);
            assert(final(out)@ =~= old(out)@ + spec_ip_bytes(*ip));
        },
        IpAddress::V6(g0, g1, g2, g3, g4, g5, g6, g7) => {
            put_u16(out, *g0);
            put_u16(out, *g1);
            put_u16(out, *g2);
            put_u16(out, *g3);
            put_u16(out, *g4);
            put_u16(out, *g5);
            put_u16(out, *g6);
            put_u16(out, *g7);
            assert(final(out)@ =~= old(out)@ + spec_ip_bytes(*ip));
        },
    }
}

/// Read the address field at position `at` of `b`, as the version that
/// `v6` selects.
pub fn read_ip(b: &[u8], at: usize, v6: bool) -> (r: IpAddress)
    requires
        at + (if v6 {
            16int
        } else {
            4int
        }) <= b@.len(),
    ensures
        r == parse_ip(b@, at as int, v6),
{
    let n: usize = b.len();
    if v6 {
        IpAddress::V6(
            read_u16(b, at),
            read_u16(b, at + 2),
            read_u16(b, at + 4),
            read_u16(b, at + 6),
            read_u16(b, at + 8),
            read_u16(b, at + 10),
            read_u16(b, at + 12),
            read_u16(b, at + 14),
        )
    } else {
        IpAddress::V4(
            *vstd::slice::slice_index_get(b, at),
            *vstd::slice::slice_index_get(b, at + 1),
            *vstd::slice::slice_index_get(b, at + 2),
            *vstd::slice::slice_index_get(b, at + 3),
        )
    }
}

} // verus!
