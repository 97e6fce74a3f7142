//! Account addresses.

use vstd::prelude::*;

verus! {

/// The address of an account: 32 bytes, compared as a whole.
#[derive(Clone, Copy, Debug, Eq)]
pub struct Pubkey {
    pub bytes: [u8; 32],
}

impl View for Pubkey {
    type V = Seq<u8>;

    open spec fn view(&self) -> Seq<u8> {
        self.bytes@
    }
}

impl PartialEq for Pubkey {
    fn eq(&self, other: &Self) -> (same: bool) {
        for i in 0..32usize
            invariant
                forall|j: int| 0 <= j < i ==> self.bytes@[j] == other.bytes@[j],
        {
            if self.bytes[i] != other.bytes[i] {
                return false;
            }
        }
        assert(self.bytes =~= other.bytes);
        true
    }
}

impl vstd::std_specs::cmp::PartialEqSpecImpl for Pubkey {
    open spec fn obeys_eq_spec() -> bool {
        true
    }

    open spec fn eq_spec(&self, other: &Self) -> bool {
        *self == *other
    }
}

impl Pubkey {
    /// The all-zero address, which a record that was never written to holds as its owner.
    pub open spec fn is_default(self) -> bool {
        self@ == Seq::new(32, |i: int| 0u8)
    }

    /// The bytes of the address, as a seed.
    pub fn to_seed(&self) -> (seed: Vec<u8>)
        ensures
            seed@ == self@,
    {
        let mut seed: Vec<u8> = Vec::new();
        for i in 0..32usize
            invariant
                seed@ == self@.take(i as int),
        {
            seed.push(self.bytes[i]);
            assert(self@.take(i + 1) =~= self@.take(i as int).push(self@[i as int]));
        }
        assert(self@.take(32) =~= self@);
        seed
    }

    /// The default address is the one of which every byte is zero, and no other.
    pub proof fn law_default_is_all_zero(self)
        ensures
            self.is_default() <==> (forall|i: int| 0 <= i < 32 ==> self.bytes@[i] == 0),
    {
        if forall|i: int| 0 <= i < 32 ==> self.bytes@[i] == 0 {
            assert(self@ =~= Seq::new(32, |i: int| 0u8));
        }
        if self.is_default() {
            assert forall|i: int| 0 <= i < 32 implies self.bytes@[i] == 0 by {
                assert(self@[i] == Seq::new(32, |j: int| 0u8)[i]);
            }
        }
    }

    /// Addresses with the same bytes are the same address.
    pub proof fn lemma_view_injective(self, other: Self)
        ensures
            self@ == other@ ==> self == other,
    {
        if self@ == other@ {
            assert(self.bytes =~= other.bytes);
        }
    }
}

impl Default for Pubkey {
    fn default() -> (key: Self)
        ensures
            key.is_default(),
    {
        let key = Pubkey { bytes: [0; 32] };
        assert(key@ =~= Seq::new(32, |i: int| 0u8));
        key
    }
}

} // verus!
