//! Content-addressed record identifiers.

use vstd::prelude::*;

verus! {

/// An opaque content-addressed identifier of a record.
///
/// The sequencing layer never looks inside an address: it only stores
/// addresses, hands them back, and compares them for equality when it
/// checks whether the chain head moved.
#[derive(Debug)]
pub struct Address {
    bytes: Vec<u8>,
}

impl View for Address {
    type V = Seq<u8>;

    closed spec fn view(&self) -> Seq<u8> {
        self.bytes@
    }
}

impl Address {
    /// Wraps raw identifier bytes as an address.
    pub fn new(bytes: Vec<u8>) -> (a: Address)
        ensures
            a@ == bytes@,
    {
        Address { bytes }
    }

    /// The raw identifier bytes.
    pub fn bytes(&self) -> (r: &Vec<u8>)
        ensures
            r@ == self@,
    {
        &self.bytes
    }
}

impl Clone for Address {
    fn clone(&self) -> (r: Self)
        ensures
            r@ == self@,
    {
        let bytes = self.bytes.clone();
        proof {
            assert(bytes@ =~= self.bytes@);
        }
        Address { bytes }
    }
}

impl PartialEq for Address {
    fn eq(&self, other: &Self) -> (r: bool) {
        let r = self.bytes == other.bytes;
        proof {
            if r {
                assert(self.bytes@ =~= other.bytes@);
            } else {
                if self@ == other@ {
                    assert(forall|i: int|
                        0 <= i < self.bytes@.len() ==> self.bytes@[i] == other.bytes@[i]);
                    assert(false);
                }
            }
        }
        r
    }
}

impl Eq for Address {}

impl vstd::std_specs::cmp::PartialEqSpecImpl for Address {
    open spec fn obeys_eq_spec() -> bool {
        true
    }

    open spec fn eq_spec(&self, other: &Address) -> bool {
        self@ == other@
    }
}

} // verus!
