//! Heights: positions on a chain that may restart its numbering.

use std::cmp::Ordering;
use vstd::prelude::*;
use vstd::std_specs::cmp::PartialOrdSpecImpl;
use vstd::std_specs::convert::FromSpecImpl;

verus! {

/// A position on a chain: the revision the chain is in, and the block height
/// within that revision.
///
/// Heights are ordered by revision first and by block height second. A height
/// whose block height is zero denotes no block: it stands for "latest" or
/// "unspecified".
#[derive(Copy, Clone, Debug, PartialEq, Eq, Hash, Ord, Structural)]
pub struct Height {
    /// The revision (epoch) of the chain.
    pub revision_number: u64,
    /// The block height within the revision.
    pub revision_height: u64,
}

/// A height as it travels on the wire.
#[derive(Copy, Clone, Debug, PartialEq, Eq, Structural)]
pub struct RawHeight {
    pub revision_number: u64,
    pub revision_height: u64,
}

impl Height {
    /// `self` comes strictly before `other`.
    pub open spec fn precedes(self, other: Height) -> bool {
        self.revision_number < other.revision_number || (self.revision_number
            == other.revision_number && self.revision_height < other.revision_height)
    }

    /// `self` comes before `other` or is `other`.
    pub open spec fn at_or_before(self, other: Height) -> bool {
        self.precedes(other) || self == other
    }

    /// The height denotes no block.
    pub open spec fn zero_spec(self) -> bool {
        self.revision_height == 0
    }

    /// How `self` stands to `other` in the order of heights.
    pub open spec fn order(self, other: Height) -> Ordering {
        if self.precedes(other) {
            Ordering::Less
        } else if self == other {
            Ordering::Equal
        } else {
            Ordering::Greater
        }
    }

    pub fn new(revision_number: u64, revision_height: u64) -> (h: Height)
        ensures
            h.revision_number == revision_number,
            h.revision_height == revision_height,
    {
        Height { revision_number, revision_height }
    }

    /// The height that stands for "latest": revision zero, block height zero.
    pub fn zero() -> (h: Height)
        ensures
            h == (Height { revision_number: 0, revision_height: 0 }),
            h.zero_spec(),
    {
        Height { revision_number: 0, revision_height: 0 }
    }

    #[verifier::when_used_as_spec(zero_spec)]
    pub fn is_zero(self) -> (z: bool)
        ensures
            z == self.zero_spec(),
    {
        self.revision_height == 0
    }
}

impl PartialOrd for Height {
    fn partial_cmp(&self, other: &Height) -> (r: Option<Ordering>) {
        if self.revision_number < other.revision_number {
            Some(Ordering::Less)
        } else if self.revision_number > other.revision_number {
            Some(Ordering::Greater)
        } else if self.revision_height < other.revision_height {
            Some(Ordering::Less)
        } else if self.revision_height > other.revision_height {
            Some(Ordering::Greater)
        } else {
            Some(Ordering::Equal)
        }
    }
}

impl PartialOrdSpecImpl for Height {
    open spec fn obeys_partial_cmp_spec() -> bool {
        true
    }

    open spec fn partial_cmp_spec(&self, other: &Height) -> Option<Ordering> {
        Some(self.order(*other))
    }
}

impl Default for Height {
    fn default() -> (h: Height)
        ensures
            h == (Height { revision_number: 0, revision_height: 0 }),
    {
        Height { revision_number: 0, revision_height: 0 }
    }
}

impl RawHeight {
    /// The wire form of a height.
    pub open spec fn of(h: Height) -> RawHeight {
        RawHeight { revision_number: h.revision_number, revision_height: h.revision_height }
    }

    /// The height that a wire form denotes.
    pub open spec fn height(self) -> Height {
        Height { revision_number: self.revision_number, revision_height: self.revision_height }
    }

}

impl From<Height> for RawHeight {
    fn from(h: Height) -> (raw: RawHeight)
        ensures
            raw == RawHeight::of(h),
    {
        RawHeight { revision_number: h.revision_number, revision_height: h.revision_height }
    }
}

impl FromSpecImpl<Height> for RawHeight {
    open spec fn obeys_from_spec() -> bool {
        true
    }

    open spec fn from_spec(h: Height) -> RawHeight {
        RawHeight::of(h)
    }
}

impl From<RawHeight> for Height {
    fn from(raw: RawHeight) -> (h: Height)
        ensures
            h == raw.height(),
    {
        Height { revision_number: raw.revision_number, revision_height: raw.revision_height }
    }
}

impl FromSpecImpl<RawHeight> for Height {
    open spec fn obeys_from_spec() -> bool {
        true
    }

    open spec fn from_spec(raw: RawHeight) -> Height {
        raw.height()
    }
}

/// One height comes strictly before another exactly when its revision is
/// smaller, or the revisions agree and its block height is smaller; the
/// comparison operators on heights answer by that relation.
pub proof fn lemma_height_order_is_lexicographic(a: Height, b: Height)
    ensures
        a.precedes(b) <==> (a.revision_number < b.revision_number || (a.revision_number
            == b.revision_number && a.revision_height < b.revision_height)),
        a.order(b) == Ordering::Less <==> a.precedes(b),
        a.order(b) == Ordering::Equal <==> a == b,
        a.order(b) == Ordering::Greater <==> b.precedes(a),
{
}

/// Every height is at or before itself, and no height precedes itself.
pub proof fn lemma_height_order_reflexive(a: Height)
    ensures
        a.at_or_before(a),
        !a.precedes(a),
{
}

/// Two heights that are each at or before the other are the same height.
pub proof fn lemma_height_order_antisymmetric(a: Height, b: Height)
    requires
        a.at_or_before(b),
        b.at_or_before(a),
    ensures
        a == b,
{
}

/// The order of heights is transitive, in its strict and in its weak form.
pub proof fn lemma_height_order_transitive(a: Height, b: Height, c: Height)
    ensures
        a.at_or_before(b) && b.at_or_before(c) ==> a.at_or_before(c),
        a.precedes(b) && b.precedes(c) ==> a.precedes(c),
        a.precedes(b) && b.at_or_before(c) ==> a.precedes(c),
        a.at_or_before(b) && b.precedes(c) ==> a.precedes(c),
{
}

/// Any two heights are comparable: exactly one of "before", "same" and
/// "after" holds.
pub proof fn lemma_height_order_total(a: Height, b: Height)
    ensures
        a.precedes(b) || a == b || b.precedes(a),
        !(a.precedes(b) && b.precedes(a)),
        !(a.precedes(b) && a == b),
{
}

} // verus!
