//! Reading scalar fields off a lease across the boundary.
//!
//! The boundary adapter flattens the engine's lease into this plain view —
//! addresses as host-order numbers, gateways as a list — and the getters
//! here answer the caller.  A getter given no lease answers a conservative
//! sentinel instead of failing: notably a lease time of 1, since 0 would
//! signal an infinite lease.

use vstd::prelude::*;

verus! {

/// The scalar fields of a lease, as plain values.  Addresses are host-order
/// numbers; the boundary adapter puts them in network byte order when it
/// hands them across.
pub struct LeaseView {
    pub lease_time: u32,
    pub t1: u32,
    pub t2: u32,
    pub yiaddr: u32,
    pub subnet_mask: u32,
    pub gateways: Vec<u32>,
}

/// How many of the low `n` bits of `x` are set.
pub open spec fn ones_upto(x: u32, n: int) -> int
    decreases n,
{
    if n <= 0 {
        0
    } else {
        (if (x >> ((n - 1) as u32)) & 1 == 1 {
            1int
        } else {
            0int
        }) + ones_upto(x, n - 1)
    }
}

/// How many bits of `x` are set.
pub open spec fn ones(x: u32) -> int {
    ones_upto(x, 32)
}

/// Counts the set bits of a subnet mask: the prefix length it encodes.
pub fn prefix_length_of_mask(mask: u32) -> (r: u32)
    ensures
        r == ones(mask),
{
    let mut c: u32 = 0;
    let mut i: u32 = 0;
    while i < 32
        invariant
            0 <= i <= 32,
            c == ones_upto(mask, i as int),
            c <= i,
        decreases 32 - i,
    {
        let b = (mask >> i) & 1;
        proof {
            assert((mask >> i) & 1 <= 1) by (bit_vector);
        }
        c = c + b;
        i = i + 1;
    }
    c
}

/// The lease time in seconds, or 1 — not 0, which would mean an infinite
/// lease — when there is no lease to read.
pub fn lease_time(lease: Option<&LeaseView>) -> (r: u32)
    ensures
        lease matches Some(l) ==> r == l.lease_time,
        lease is None ==> r == 1,
{
    match lease {
        Some(l) => l.lease_time,
        None => 1,
    }
}

/// The renewal timer T1 in seconds, or 0 when there is no lease to read.
pub fn lease_t1(lease: Option<&LeaseView>) -> (r: u32)
    ensures
        lease matches Some(l) ==> r == l.t1,
        lease is None ==> r == 0,
{
    match lease {
        Some(l) => l.t1,
        None => 0,
    }
}

/// The rebinding timer T2 in seconds, or 0 when there is no lease to read.
pub fn lease_t2(lease: Option<&LeaseView>) -> (r: u32)
    ensures
        lease matches Some(l) ==> r == l.t2,
        lease is None ==> r == 0,
{
    match lease {
        Some(l) => l.t2,
        None => 0,
    }
}

/// The prefix length the lease's subnet mask encodes, or 0 when there is no
/// lease to read.
pub fn prefix_length(lease: Option<&LeaseView>) -> (r: u32)
    ensures
        lease matches Some(l) ==> r == ones(l.subnet_mask),
        lease is None ==> r == 0,
{
    match lease {
        Some(l) => prefix_length_of_mask(l.subnet_mask),
        None => 0,
    }
}

/// How many gateways the lease names, or 0 when there is no lease to read.
pub fn gateway_count(lease: Option<&LeaseView>) -> (r: usize)
    ensures
        lease matches Some(l) ==> r == l.gateways@.len(),
        lease is None ==> r == 0,
{
    match lease {
        Some(l) => l.gateways.len(),
        None => 0,
    }
}

/// The gateway at `index`, or 0 when the index is out of range or there is
/// no lease to read.
pub fn gateway(lease: Option<&LeaseView>, index: usize) -> (r: u32)
    ensures
        lease matches Some(l) ==> r == (if index < l.gateways@.len() {
            l.gateways@[index as int]
        } else {
            0u32
        }),
        lease is None ==> r == 0,
{
    match lease {
        Some(l) => {
            if index < l.gateways.len() {
                l.gateways[index]
            } else {
                0
            }
        },
        None => 0,
    }
}

/// The address the lease assigns, or 0 when there is no lease to read.
pub fn yiaddr(lease: Option<&LeaseView>) -> (r: u32)
    ensures
        lease matches Some(l) ==> r == l.yiaddr,
        lease is None ==> r == 0,
{
    match lease {
        Some(l) => l.yiaddr,
        None => 0,
    }
}

} // verus!
