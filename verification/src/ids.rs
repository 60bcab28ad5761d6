//! Identifier allocation.
//!
//! Tunnel ids and request ids come from two monotonically increasing
//! counters, owned by one allocator object that is handed to whoever needs
//! a fresh id. Counter wraparound is an accepted weakness of the design:
//! by the time a counter wraps, tunnels and requests from before the wrap
//! are assumed to have terminated.

use vstd::prelude::*;

verus! {

/// The successor of a counter value, wrapping at the top of `u32`.
pub open spec fn wrap_next(x: u32) -> u32 {
    if x == u32::MAX {
        0u32
    } else {
        (x + 1) as u32
    }
}

/// The node's two identifier counters.
#[derive(Clone, Copy, Debug, PartialEq, Eq, Structural)]
pub struct IdAllocator {
    pub next_tunnel_id: u32,
    pub next_request_id: u32,
}

impl IdAllocator {
    /// A fresh allocator; both counters start at zero.
    pub fn new() -> (r: IdAllocator)
        ensures
            r.next_tunnel_id == 0,
            r.next_request_id == 0,
    {
        IdAllocator { next_tunnel_id: 0, next_request_id: 0 }
    }

    /// Issue the next tunnel id; the request counter is untouched.
    pub fn fresh_tunnel_id(&mut self) -> (r: u32)
        ensures
            r == old(self).next_tunnel_id,
            final(self).next_tunnel_id == wrap_next(old(self).next_tunnel_id),
            final(self).next_request_id == old(self).next_request_id,
    {
        let id = self.next_tunnel_id;
        self.next_tunnel_id = if self.next_tunnel_id == u32::MAX {
            0
        } else {
            self.next_tunnel_id + 1
        };
        id
    }

    /// Issue the next request id; the tunnel counter is untouched.
    pub fn fresh_request_id(&mut self) -> (r: u32)
        ensures
            r == old(self).next_request_id,
            final(self).next_request_id == wrap_next(old(self).next_request_id),
            final(self).next_tunnel_id == old(self).next_tunnel_id,
    {
        let id = self.next_request_id;
        self.next_request_id = if self.next_request_id == u32::MAX {
            0
        } else {
            self.next_request_id + 1
        };
        id
    }
}

/// The ids a counter starting at `start` hands out over `n` draws that do
/// not wrap.
pub open spec fn ids_from(start: u32, n: nat) -> Seq<u32> {
    Seq::new(n, |i: int| (start + i) as u32)
}

/// Identifier allocation: while the counter does not wrap, the ids issued
/// are pairwise distinct and strictly increasing in issuance order — so any
/// number of concurrently live tunnels or in-flight requests drawn from one
/// allocator carry distinct ids.
pub proof fn lemma_ids_distinct(start: u32, n: nat)
    requires
        start + n <= 0x1_0000_0000,
    ensures
        forall|i: int, j: int|
            0 <= i < j < n ==> #[trigger] ids_from(start, n)[i] != #[trigger] ids_from(start, n)[j],
        forall|i: int, j: int|
            0 <= i < j < n ==> #[trigger] ids_from(start, n)[i] < #[trigger] ids_from(start, n)[j],
{
    assert forall|i: int, j: int| 0 <= i < j < n implies #[trigger] ids_from(start, n)[i]
        < #[trigger] ids_from(start, n)[j] by {
        assert(ids_from(start, n)[i] == (start + i) as u32);
        assert(ids_from(start, n)[j] == (start + j) as u32);
    }
}

} // verus!
