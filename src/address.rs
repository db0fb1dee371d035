use vstd::prelude::*;

verus! {

/// A 32-byte account address.
#[derive(Clone, Copy, Debug)]
pub struct Address {
    pub bytes: [u8; 32],
}

/// The all-zero address, which stands for "none".
pub open spec fn zero_bytes() -> Seq<u8> {
    Seq::new(32, |i: int| 0u8)
}

/// The bytes of the sentinel address that marks a round whose emission is split.
pub open spec fn split_bytes() -> Seq<u8> {
    seq![
        6u8, 157, 12, 49, 135, 89, 177, 230, 115, 111, 41, 158, 119, 77, 254, 253,
        56, 29, 124, 92, 216, 81, 47, 16, 200, 145, 142, 0, 0, 0, 0, 1,
    ]
}

impl Address {
    pub fn new(bytes: [u8; 32]) -> (r: Address)
        ensures
            r.bytes == bytes,
    {
        Address { bytes }
    }

    /// The all-zero address.
    pub fn zero() -> (r: Address)
        ensures
            r.bytes@ == zero_bytes(),
    {
        let r = Address { bytes: [0u8; 32] };
        assert(r.bytes@ =~= zero_bytes());
        r
    }

    /// The sentinel that marks a round whose emission is shared by all winners.
    pub fn split() -> (r: Address)
        ensures
            r.bytes@ == split_bytes(),
    {
        let r = Address {
            bytes: [
                6u8, 157, 12, 49, 135, 89, 177, 230, 115, 111, 41, 158, 119, 77, 254, 253,
                56, 29, 124, 92, 216, 81, 47, 16, 200, 145, 142, 0, 0, 0, 0, 1,
            ],
        };
        assert(r.bytes@ =~= split_bytes());
        r
    }

    /// Whether two addresses hold the same bytes.
    pub fn same(&self, other: &Address) -> (r: bool)
        ensures
            r == (self.bytes@ == other.bytes@),
    {
        let mut i: usize = 0;
        while i < 32
            invariant
                i <= 32,
                forall|j: int| 0 <= j < i ==> self.bytes@[j] == other.bytes@[j],
            decreases 32 - i,
        {
            if self.bytes[i] != other.bytes[i] {
                return false;
            }
            i = i + 1;
        }
        assert(self.bytes@ =~= other.bytes@);
        true
    }

    /// Whether this is the all-zero address.
    pub fn is_zero(&self) -> (r: bool)
        ensures
            r == (self.bytes@ == zero_bytes()),
    {
        let z = Address::zero();
        self.same(&z)
    }
}

impl PartialEq for Address {
    fn eq(&self, other: &Address) -> (r: bool) {
        self.same(other)
    }
}

impl vstd::std_specs::cmp::PartialEqSpecImpl for Address {
    open spec fn obeys_eq_spec() -> bool {
        true
    }

    open spec fn eq_spec(&self, other: &Address) -> bool {
        self.bytes@ == other.bytes@
    }
}

impl Eq for Address {

}

} // verus!
