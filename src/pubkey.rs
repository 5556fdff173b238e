//! Participant identities: 32-byte public keys under their canonical
//! (lexicographic byte) order.
use vstd::prelude::*;

verus! {

/// Number of bytes in a participant identity.
pub const PUBKEY_BYTES: usize = 32;

/// A participant's public key.
#[derive(Clone, Copy, Debug, PartialEq, Eq)]
pub struct Pubkey {
    pub bytes: [u8; 32],
}

/// `a` sorts strictly before `b`: at the first position where they differ,
/// `a` holds the smaller byte.
pub open spec fn key_lt(a: Seq<u8>, b: Seq<u8>) -> bool {
    exists|i: int|
        0 <= i < a.len() && i < b.len() && a[i] < b[i] && forall|j: int|
            0 <= j < i ==> a[j] == b[j]
}

impl View for Pubkey {
    type V = Seq<u8>;

    open spec fn view(&self) -> Seq<u8> {
        self.bytes@
    }
}

impl Pubkey {
    pub fn new(bytes: [u8; 32]) -> (r: Pubkey)
        ensures
            r@ == bytes@,
    {
        Pubkey { bytes }
    }

    pub fn to_bytes(&self) -> (r: [u8; 32])
        ensures
            r@ == self@,
    {
        self.bytes
    }

    /// Whether both keys hold the same bytes.
    pub fn same_as(&self, other: &Pubkey) -> (r: bool)
        ensures
            r == (self@ == other@),
    {
        let mut i: usize = 0;
        while i < PUBKEY_BYTES
            invariant
                0 <= i <= PUBKEY_BYTES,
                self@.len() == PUBKEY_BYTES,
                other@.len() == PUBKEY_BYTES,
                forall|j: int| 0 <= j < i ==> self@[j] == other@[j],
            decreases PUBKEY_BYTES - i,
        {
            if self.bytes[i] != other.bytes[i] {
                return false;
            }
            i = i + 1;
        }
        assert(self@ =~= other@);
        true
    }

    /// Whether `self` sorts strictly before `other` in the canonical order.
    pub fn less_than(&self, other: &Pubkey) -> (r: bool)
        ensures
            r == key_lt(self@, other@),
    {
        let mut i: usize = 0;
        while i < PUBKEY_BYTES
            invariant
                0 <= i <= PUBKEY_BYTES,
                self@.len() == PUBKEY_BYTES,
                other@.len() == PUBKEY_BYTES,
                forall|j: int| 0 <= j < i ==> self@[j] == other@[j],
            decreases PUBKEY_BYTES - i,
        {
            let x = self.bytes[i];
            let y = other.bytes[i];
            if x != y {
                if x < y {
                    assert(key_lt(self@, other@)) by {
                        assert(self@[i as int] < other@[i as int]);
                    }
                    return true;
                } else {
                    assert(!key_lt(self@, other@)) by {
                        if key_lt(self@, other@) {
                            let k = choose|k: int|
                                0 <= k < self@.len() && k < other@.len() && self@[k] < other@[k]
                                    && forall|j: int| 0 <= j < k ==> self@[j] == other@[j];
                            if k < i {
                            } else if k > i {
                                assert(self@[i as int] == other@[i as int]);
                            }
                        }
                    }
                    return false;
                }
            }
            i = i + 1;
        }
        false
    }
}

/// The canonical order is irreflexive and asymmetric, so a key pair
/// `(a, b)` with `a` before `b` names each unordered pair exactly once.
pub proof fn lemma_key_lt_asymmetric(a: Seq<u8>, b: Seq<u8>)
    ensures
        !key_lt(a, a),
        key_lt(a, b) ==> !key_lt(b, a),
{
    if key_lt(a, b) && key_lt(b, a) {
        let i = choose|i: int|
            0 <= i < a.len() && i < b.len() && a[i] < b[i] && forall|j: int|
                0 <= j < i ==> a[j] == b[j];
        let k = choose|k: int|
            0 <= k < b.len() && k < a.len() && b[k] < a[k] && forall|j: int|
                0 <= j < k ==> b[j] == a[j];
        if i < k {
        } else if k < i {
        }
    }
}

} // verus!
