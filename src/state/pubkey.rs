use core::cmp::Ordering;
use vstd::prelude::*;

verus! {

/// Length in bytes of an account address.
pub const PUBKEY_BYTES: usize = 32;

/// An account address: 32 bytes, ordered lexicographically.
#[derive(Clone, Copy, Debug, PartialEq, Eq, Hash)]
pub struct Pubkey {
    pub bytes: [u8; 32],
}

/// Lexicographic comparison of `a` and `b` from position `i` on.
pub open spec fn cmp_from(a: Seq<u8>, b: Seq<u8>, i: int) -> Ordering
    decreases 32 - i,
{
    if i >= 32 || i < 0 {
        Ordering::Equal
    } else if a[i] < b[i] {
        Ordering::Less
    } else if a[i] > b[i] {
        Ordering::Greater
    } else {
        cmp_from(a, b, i + 1)
    }
}

/// The order of two addresses: that of their byte arrays.
pub open spec fn key_cmp(a: Pubkey, b: Pubkey) -> Ordering {
    cmp_from(a.bytes@, b.bytes@, 0)
}

/// Equality of two 32-byte sequences implies that they compare `Equal`, and back.
pub proof fn lemma_cmp_equal_iff_same(a: Seq<u8>, b: Seq<u8>, i: int)
    requires
        a.len() == 32,
        b.len() == 32,
        0 <= i <= 32,
    ensures
        (cmp_from(a, b, i) == Ordering::Equal) <==> (forall|j: int| i <= j < 32 ==> a[j] == b[j]),
    decreases 32 - i,
{
    if i < 32 {
        lemma_cmp_equal_iff_same(a, b, i + 1);
        if cmp_from(a, b, i) == Ordering::Equal {
            assert forall|j: int| i <= j < 32 implies a[j] == b[j] by {
                if j > i {
                }
            }
        }
    }
}

impl Pubkey {
    /// Builds an address from its bytes.
    pub fn new_from_array(bytes: [u8; 32]) -> (r: Pubkey)
        ensures
            r.bytes == bytes,
    {
        Pubkey { bytes }
    }

    /// Compares two addresses byte by byte, from the first byte on.
    pub fn cmp_key(&self, other: &Pubkey) -> (r: Ordering)
        ensures
            r == key_cmp(*self, *other),
    {
        let mut i: usize = 0;
        while i < PUBKEY_BYTES
            invariant
                0 <= i <= 32,
                cmp_from(self.bytes@, other.bytes@, 0) == cmp_from(self.bytes@, other.bytes@, i as int),
            decreases 32 - i,
        {
            let x = self.bytes[i];
            let y = other.bytes[i];
            if x < y {
                return Ordering::Less;
            } else if x > y {
                return Ordering::Greater;
            }
            i = i + 1;
        }
        Ordering::Equal
    }

    /// Whether two addresses are the same.
    pub fn same_key(&self, other: &Pubkey) -> (r: bool)
        ensures
            r == (self.bytes@ == other.bytes@),
    {
        let o = self.cmp_key(other);
        proof {
            lemma_cmp_equal_iff_same(self.bytes@, other.bytes@, 0);
            if o == Ordering::Equal {
                assert(self.bytes@ =~= other.bytes@);
            }
        }
        match o {
            Ordering::Equal => true,
            _ => false,
        }
    }
}

} // verus!
