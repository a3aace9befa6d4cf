//! The identity under which a vote is cast.

use vstd::prelude::*;
use vstd::std_specs::cmp::PartialEqSpecImpl;

verus! {

/// The public key of a voter: thirty-two bytes, with no structure that a
/// poll looks into. Two keys name the same voter exactly when all their
/// bytes agree.
#[derive(Debug, Clone, Copy)]
pub struct VoterKey {
    pub bytes: [u8; 32],
}

impl View for VoterKey {
    type V = Seq<u8>;

    open spec fn view(&self) -> Seq<u8> {
        self.bytes@
    }
}

impl VoterKey {
    /// The key made of the given bytes.
    pub fn new(bytes: [u8; 32]) -> (key: VoterKey)
        ensures
            key@ == bytes@,
            key.bytes == bytes,
    {
        VoterKey { bytes }
    }

    /// The bytes of the key.
    pub fn to_bytes(&self) -> (bytes: [u8; 32])
        ensures
            bytes@ == self@,
            bytes == self.bytes,
    {
        self.bytes
    }
}

impl PartialEq for VoterKey {
    fn eq(&self, other: &VoterKey) -> (same: bool) {
        let mut i: usize = 0;
        while i < 32
            invariant
                i <= 32,
                forall|j: int| 0 <= j < i ==> self.bytes@[j] == other.bytes@[j],
            decreases 32 - i,
        {
            if self.bytes[i] != other.bytes[i] {
                return false;
            }
            i += 1;
        }
        assert(self.bytes@ =~= other.bytes@);
        true
    }
}

impl Eq for VoterKey {

}

impl PartialEqSpecImpl for VoterKey {
    open spec fn obeys_eq_spec() -> bool {
        true
    }

    open spec fn eq_spec(&self, other: &VoterKey) -> bool {
        self@ == other@
    }
}

} // verus!
