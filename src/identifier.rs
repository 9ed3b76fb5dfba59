use vstd::prelude::*;

verus! {

/// A 128-bit identifier of users, contexts, resources and requests, held as
/// its 16 bytes in canonical (wire) order. Two identifiers are equal exactly
/// when their bytes are equal.
#[derive(Clone, Copy, Debug, Eq, Hash)]
pub struct Identifier {
    bytes: [u8; 16],
}

impl Identifier {
    /// The 16 bytes of the identifier.
    pub closed spec fn spec_bytes(self) -> Seq<u8> {
        self.bytes@
    }

    pub fn from_bytes(bytes: [u8; 16]) -> (r: Identifier)
        ensures
            r.spec_bytes() == bytes@,
    {
        Identifier { bytes }
    }

    pub fn into_bytes(self) -> (r: [u8; 16])
        ensures
            r@ == self.spec_bytes(),
    {
        self.bytes
    }

    /// A fresh identifier, ordered after those made before it by this
    /// process.
    pub fn now_v7() -> Identifier {
        Identifier { bytes: fresh_identifier_bytes() }
    }

    /// Two identifiers with the same bytes are the same value.
    pub proof fn lemma_bytes_determine(a: Identifier, b: Identifier)
        requires
            a.spec_bytes() == b.spec_bytes(),
        ensures
            a == b,
    {
        broadcast use vstd::array::group_array_axioms;

        assert(a.bytes =~= b.bytes);
    }
}

/// Relies on `uuid::Uuid::now_v7` and `uuid::Uuid::into_bytes`: the bytes of
/// a fresh time-ordered identifier, about which nothing is assumed.
#[verifier::external_body]
pub(crate) fn fresh_identifier_bytes() -> [u8; 16] {
    uuid::Uuid::now_v7().into_bytes()
}

impl PartialEq for Identifier {
    fn eq(&self, other: &Identifier) -> (r: bool) {
        let mut i: usize = 0;
        while i < 16
            invariant
                i <= 16,
                forall|j: int| 0 <= j < i ==> self.bytes@[j] == other.bytes@[j],
            decreases 16 - i,
        {
            if self.bytes[i] != other.bytes[i] {
                return false;
            }
            i += 1;
        }
        assert(self.bytes@ =~= other.bytes@);
        proof {
            Identifier::lemma_bytes_determine(*self, *other);
        }
        true
    }
}

impl vstd::std_specs::cmp::PartialEqSpecImpl for Identifier {
    open spec fn obeys_eq_spec() -> bool {
        true
    }

    open spec fn eq_spec(&self, other: &Identifier) -> bool {
        *self == *other
    }
}

} // verus!
