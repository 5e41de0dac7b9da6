use vstd::prelude::*;
use crate::messages::NameInterval;
use crate::types::{PublicKey, XorName};

verus! {

/// The public half of an identity: its signing key and its address.
#[derive(Clone, Copy, Debug, PartialEq, Eq, Structural)]
pub struct PublicId {
    pub signing_public_key: PublicKey,
    pub name: XorName,
}

/// A node's full identity. The private key stays with the signing layer; this value names the
/// public half that it signs for.
#[derive(Clone, Copy, Debug, PartialEq, Eq, Structural)]
pub struct FullId {
    pub public_id: PublicId,
}

/// The address that a draw picks inside the closed interval `[lo, hi]`.
pub open spec fn name_in_range(lo: u64, hi: u64, draw: u64) -> int {
    let span: int = hi - lo;
    if span == u64::MAX {
        draw as int
    } else {
        lo + (draw as int) % (span + 1)
    }
}

/// The address a draw picks from `[lo, hi]` lies in `[lo, hi]`.
pub proof fn lemma_name_in_range_bounds(lo: u64, hi: u64, draw: u64)
    requires
        lo <= hi,
    ensures
        lo <= name_in_range(lo, hi, draw) <= hi,
{
    let span: int = hi - lo;
    if span != u64::MAX {
        assert(0 <= (draw as int) % (span + 1) <= span) by (nonlinear_arith)
            requires span >= 0;
    }
}

impl PublicId {
    pub fn signing_public_key(&self) -> (r: PublicKey)
        ensures
            r == self.signing_public_key,
    {
        self.signing_public_key
    }

    pub fn name(&self) -> (r: XorName)
        ensures
            r == self.name,
    {
        self.name
    }
}

impl FullId {
    pub fn new(signing_public_key: PublicKey, name: XorName) -> (r: FullId)
        ensures
            r.public_id.signing_public_key == signing_public_key,
            r.public_id.name == name,
    {
        FullId { public_id: PublicId { signing_public_key, name } }
    }

    pub fn public_id(&self) -> (r: PublicId)
        ensures
            r == self.public_id,
    {
        self.public_id
    }

    /// A relocated identity for a freshly generated key, whose address is the point of the
    /// interval `[lo, hi]` that a uniform random `draw` selects.
    pub fn within_range(signing_public_key: PublicKey, lo: &XorName, hi: &XorName, draw: u64) -> (r: FullId)
        requires
            lo.0 <= hi.0,
        ensures
            r.public_id.signing_public_key == signing_public_key,
            r.public_id.name.0 == name_in_range(lo.0, hi.0, draw),
            lo.0 <= r.public_id.name.0 <= hi.0,
    {
        proof {
            lemma_name_in_range_bounds(lo.0, hi.0, draw);
        }
        let span: u64 = hi.0 - lo.0;
        let name: u64 = if span == u64::MAX {
            draw
        } else {
            lo.0 + draw % (span + 1)
        };
        FullId::new(signing_public_key, XorName(name))
    }

    /// A relocated identity for a freshly generated key, with the address that `draw` picks
    /// from the interval a relocation response gave; `None` where the interval is empty
    /// (its first address lies above its last).
    pub fn within_interval(signing_public_key: PublicKey, target_interval: &NameInterval, draw: u64) -> (r: Option<FullId>)
        ensures
            r is None <==> target_interval.0.0 > target_interval.1.0,
            r is Some ==> r->0.public_id.signing_public_key == signing_public_key
                && r->0.public_id.name.0 == name_in_range(target_interval.0.0, target_interval.1.0, draw),
    {
        if target_interval.0.0 > target_interval.1.0 {
            None
        } else {
            Some(FullId::within_range(signing_public_key, &target_interval.0, &target_interval.1, draw))
        }
    }
}

} // verus!
