//! Negotiated protocol versions and their order.

use core::cmp::Ordering;
use vstd::prelude::*;
use vstd::std_specs::cmp::PartialOrdSpecImpl;

verus! {

/// The protocol version that a connected device negotiated.
#[derive(Debug, Clone, Copy, PartialEq, Eq, Structural, Ord, Hash)]
pub struct APIVersion {
    pub major: u8,
    pub minor: u8,
}

impl APIVersion {
    /// Whether `self` comes strictly before `other`: the major numbers decide,
    /// and the minor numbers only where the major numbers agree.
    pub open spec fn spec_lt(self, other: APIVersion) -> bool {
        self.major < other.major || (self.major == other.major && self.minor < other.minor)
    }

    /// How `self` stands to `other` in the order of versions.
    pub open spec fn relation_to(self, other: APIVersion) -> Ordering {
        if self.spec_lt(other) {
            Ordering::Less
        } else if other.spec_lt(self) {
            Ordering::Greater
        } else {
            Ordering::Equal
        }
    }

    /// The version with the given numbers.
    pub fn new(major: u8, minor: u8) -> (version: APIVersion)
        ensures
            version.major == major,
            version.minor == minor,
    {
        APIVersion { major, minor }
    }

    /// Decides whether a device that negotiated `self` still speaks the
    /// encoding that `threshold` replaced.
    pub fn is_before(&self, threshold: &APIVersion) -> (legacy: bool)
        ensures
            legacy == self.spec_lt(*threshold),
    {
        self.major < threshold.major || (self.major == threshold.major && self.minor
            < threshold.minor)
    }
}

impl PartialOrd for APIVersion {
    fn partial_cmp(&self, other: &APIVersion) -> (ordering: Option<Ordering>) {
        if self.is_before(other) {
            Some(Ordering::Less)
        } else if other.is_before(self) {
            Some(Ordering::Greater)
        } else {
            Some(Ordering::Equal)
        }
    }
}

impl PartialOrdSpecImpl for APIVersion {
    open spec fn obeys_partial_cmp_spec() -> bool {
        true
    }

    open spec fn partial_cmp_spec(&self, other: &APIVersion) -> Option<Ordering> {
        Some(self.relation_to(*other))
    }
}

/// No version comes before itself.
pub proof fn lemma_order_irreflexive(a: APIVersion)
    ensures
        !a.spec_lt(a),
{
}

/// Of two versions at most one comes before the other.
pub proof fn lemma_order_asymmetric(a: APIVersion, b: APIVersion)
    requires
        a.spec_lt(b),
    ensures
        !b.spec_lt(a),
{
}

/// What comes before an earlier version comes before the later one too.
pub proof fn lemma_order_transitive(a: APIVersion, b: APIVersion, c: APIVersion)
    requires
        a.spec_lt(b),
        b.spec_lt(c),
    ensures
        a.spec_lt(c),
{
}

/// Any two versions are comparable: one comes before the other, or they are
/// the same version, and only one of the three holds.
pub proof fn lemma_order_total(a: APIVersion, b: APIVersion)
    ensures
        a.spec_lt(b) || a == b || b.spec_lt(a),
        !(a.spec_lt(b) && a == b),
        !(b.spec_lt(a) && a == b),
        !(a.spec_lt(b) && b.spec_lt(a)),
{
}

/// The order is that of the pairs (major, minor) read as two-digit numbers
/// to the base 256: the major number weighs more than any minor number.
pub proof fn lemma_order_lexicographic(a: APIVersion, b: APIVersion)
    ensures
        a.spec_lt(b) <==> a.major * 256 + a.minor < b.major * 256 + b.minor,
        a.relation_to(b) == Ordering::Equal <==> a == b,
        a.relation_to(b) == Ordering::Greater <==> b.spec_lt(a),
{
}

} // verus!
