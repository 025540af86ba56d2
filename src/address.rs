//! A 160-bit account address.
use vstd::prelude::*;

verus! {

/// An account address: 20 bytes.
#[derive(Clone, Copy, Debug)]
pub struct Address(pub [u8; 20]);

impl View for Address {
    type V = Seq<u8>;

    open spec fn view(&self) -> Seq<u8> {
        self.0@
    }
}

impl Address {
    /// The address whose bytes are all zero.
    pub open spec fn spec_zero() -> Seq<u8> {
        Seq::new(20, |i: int| 0u8)
    }

    /// The zero address.
    pub fn zero() -> (r: Address)
        ensures
            r@ == Address::spec_zero(),
    {
        let r = Address([0u8; 20]);
        assert(r@ =~= Address::spec_zero());
        r
    }
}

impl PartialEq for Address {
    fn eq(&self, other: &Address) -> (r: bool) {
        let mut i: usize = 0;
        while i < 20
            invariant
                i <= 20,
                forall|j: int| 0 <= j < i ==> self@[j] == other@[j],
            decreases 20 - i,
        {
            if self.0[i] != other.0[i] {
                return false;
            }
            i += 1;
        }
        assert(self@ =~= other@);
        true
    }
}

impl vstd::std_specs::cmp::PartialEqSpecImpl for Address {
    open spec fn obeys_eq_spec() -> bool {
        true
    }

    open spec fn eq_spec(&self, other: &Address) -> bool {
        self@ == other@
    }
}

impl Eq for Address {
}

} // verus!
