use vstd::prelude::*;
use vstd::std_specs::cmp::PartialEqSpecImpl;

verus! {

/// A 32-byte address: the identity of a caller, an owner, an admin or a
/// recipient, and the location of an account. The registry never looks inside
/// one; it only compares them.
#[derive(Clone, Copy, Debug, Eq, Hash)]
pub struct Pubkey {
    pub bytes: [u8; 32],
}

impl Pubkey {
    /// Whether this is the address made of 32 zero bytes, which `default`
    /// returns and which stands for nobody.
    pub open spec fn spec_is_default(&self) -> bool {
        forall|i: int| 0 <= i < 32 ==> self.bytes[i] == 0u8
    }

    /// Whether this is the address made of 32 zero bytes.
    #[verifier::when_used_as_spec(spec_is_default)]
    pub fn is_default(&self) -> (zero: bool)
        ensures
            zero == self.spec_is_default(),
    {
        let nobody = Pubkey::default();
        proof {
            if self.spec_is_default() {
                lemma_default_is_unique(*self, nobody);
            }
        }
        *self == nobody
    }

    /// The address with these bytes.
    pub fn new_from_array(bytes: [u8; 32]) -> (key: Pubkey)
        ensures
            key.bytes == bytes,
    {
        Pubkey { bytes }
    }

    /// The bytes of the address.
    pub fn to_bytes(self) -> (bytes: [u8; 32])
        ensures
            bytes == self.bytes,
    {
        self.bytes
    }
}

impl Default for Pubkey {
    /// The address made of 32 zero bytes.
    fn default() -> (key: Pubkey)
        ensures
            key.is_default(),
    {
        Pubkey { bytes: [0u8; 32] }
    }
}

impl PartialEq for Pubkey {
    /// Two addresses are equal when their bytes are.
    fn eq(&self, other: &Pubkey) -> (same: bool) {
        let mut i: usize = 0;
        while i < 32
            invariant
                i <= 32,
                forall|j: int| 0 <= j < i ==> self.bytes[j] == other.bytes[j],
            decreases 32 - i,
        {
            if self.bytes[i] != other.bytes[i] {
                return false;
            }
            i += 1;
        }
        assert(self.bytes =~= other.bytes);
        true
    }
}

impl PartialEqSpecImpl for Pubkey {
    open spec fn obeys_eq_spec() -> bool {
        true
    }

    open spec fn eq_spec(&self, other: &Pubkey) -> bool {
        *self == *other
    }
}

/// Any two all-zero addresses are the same address.
pub proof fn lemma_default_is_unique(a: Pubkey, b: Pubkey)
    requires
        a.is_default(),
        b.is_default(),
    ensures
        a == b,
{
    assert(a.bytes =~= b.bytes);
}

} // verus!
