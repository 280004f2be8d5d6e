//! Fixed-width opaque identifiers and their canonical order.
//!
//! Assets, vaults and the claim-token mint are addressed by 32-byte
//! identifiers owned by the surrounding environment. The core never
//! interprets them; it reads only equality and the total lexicographic
//! order, which fixes the canonical ascending order of a pool's asset pair.

use vstd::prelude::*;

verus! {

/// The width of an identifier in bytes.
pub const ID_WIDTH: usize = 32;

/// A fixed-width opaque identifier.
#[derive(Clone, Copy, Debug, PartialEq, Eq)]
pub struct AssetId {
    pub bytes: [u8; 32],
}

/// Lexicographic strict order on two 32-byte strings, decided from
/// position `i` on: the first differing byte decides; equal suffixes
/// compare as not-less.
pub open spec fn lex_lt_from(a: Seq<u8>, b: Seq<u8>, i: int) -> bool
    recommends
        a.len() == 32,
        b.len() == 32,
        0 <= i <= 32,
    decreases 32 - i when 0 <= i <= 32
{
    if i >= 32 || i < 0 {
        false
    } else if a[i] < b[i] {
        true
    } else if a[i] > b[i] {
        false
    } else {
        lex_lt_from(a, b, i + 1)
    }
}

impl AssetId {
    /// Strict lexicographic order on identifiers.
    pub open spec fn lt_spec(self, other: AssetId) -> bool {
        lex_lt_from(self.bytes@, other.bytes@, 0)
    }

    /// Identifier equality, byte for byte.
    pub open spec fn eq_spec(self, other: AssetId) -> bool {
        self.bytes@ == other.bytes@
    }
}

/// Decides whether `x` precedes `y` in the canonical identifier order.
pub fn asset_id_lt(x: &AssetId, y: &AssetId) -> (r: bool)
    ensures
        r == x.lt_spec(*y),
{
    let mut i: usize = 0;
    while i < 32
        invariant
            0 <= i <= 32,
            forall|j: int| 0 <= j < i ==> x.bytes@[j] == y.bytes@[j],
            x.lt_spec(*y) == lex_lt_from(x.bytes@, y.bytes@, i as int),
        decreases 32 - i,
    {
        if x.bytes[i] < y.bytes[i] {
            return true;
        }
        if x.bytes[i] > y.bytes[i] {
            return false;
        }
        i = i + 1;
    }
    false
}

/// Decides whether `x` and `y` are the same identifier.
pub fn asset_id_eq(x: &AssetId, y: &AssetId) -> (r: bool)
    ensures
        r == x.eq_spec(*y),
{
    let mut i: usize = 0;
    while i < 32
        invariant
            0 <= i <= 32,
            forall|j: int| 0 <= j < i ==> x.bytes@[j] == y.bytes@[j],
        decreases 32 - i,
    {
        if x.bytes[i] != y.bytes[i] {
            return false;
        }
        i = i + 1;
    }
    proof {
        assert(x.bytes@ =~= y.bytes@);
    }
    true
}

} // verus!
