//! The identity of a party that the host talks to: a connected proxy, a
//! calling canister.

use vstd::prelude::*;

verus! {

/// The identity under which the host knows a party: the bytes of its
/// principal. Two identities are the same party exactly when their bytes
/// are equal.
#[derive(Debug, PartialEq, Eq, Hash)]
pub struct Principal {
    bytes: Vec<u8>,
}

impl View for Principal {
    type V = Seq<u8>;

    closed spec fn view(&self) -> Seq<u8> {
        self.bytes@
    }
}

impl Principal {
    pub fn from_slice(bytes: &[u8]) -> (principal: Self)
        ensures
            principal@ == bytes@,
    {
        Principal { bytes: vstd::slice::slice_to_vec(bytes) }
    }

    pub fn as_slice(&self) -> (bytes: &[u8])
        ensures
            bytes@ == self@,
    {
        self.bytes.as_slice()
    }

    /// The identity of a caller that has not identified itself: the one
    /// byte 4.
    pub open spec fn anonymous_bytes() -> Seq<u8> {
        seq![4u8]
    }

    pub fn anonymous() -> (principal: Self)
        ensures
            principal@ == Self::anonymous_bytes(),
    {
        let mut bytes: Vec<u8> = Vec::new();
        bytes.push(4u8);
        assert(bytes@ =~= Self::anonymous_bytes());
        Principal { bytes }
    }

    pub fn is_anonymous(&self) -> (anonymous: bool)
        ensures
            anonymous == (self@ == Self::anonymous_bytes()),
    {
        let anonymous = self.bytes.len() == 1 && self.bytes[0] == 4;
        proof {
            if anonymous {
                assert(self.bytes@ =~= Self::anonymous_bytes());
            }
        }
        anonymous
    }

    /// Whether two identities are the same party.
    pub fn is(&self, other: &Principal) -> (same: bool)
        ensures
            same == (self@ == other@),
    {
        if self.bytes.len() != other.bytes.len() {
            return false;
        }
        let mut i: usize = 0;
        while i < self.bytes.len()
            invariant
                i <= self.bytes.len(),
                self.bytes.len() == other.bytes.len(),
                forall|j: int| 0 <= j < i ==> self.bytes[j] == other.bytes[j],
            decreases self.bytes.len() - i,
        {
            if self.bytes[i] != other.bytes[i] {
                return false;
            }
            i += 1;
        }
        assert(self.bytes@ =~= other.bytes@);
        true
    }
}

impl Clone for Principal {
    fn clone(&self) -> (res: Self)
        ensures
            res@ == self@,
    {
        Principal::from_slice(self.bytes.as_slice())
    }
}

} // verus!
