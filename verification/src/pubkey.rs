use vstd::prelude::*;

verus! {

/// A 32-byte account address, as the programs read it: only its bytes matter.
#[derive(Clone, Copy, Debug)]
pub struct Pubkey {
    pub bytes: [u8; 32],
}

impl View for Pubkey {
    type V = Seq<u8>;

    open spec fn view(&self) -> Seq<u8> {
        self.bytes@
    }
}

/// The address whose bytes are all zero (what `Pubkey::default()` gives).
pub open spec fn zero_key() -> Seq<u8> {
    Seq::new(32, |i: int| 0u8)
}

impl Pubkey {
    /// Builds an address from its bytes.
    pub fn new_from_array(bytes: [u8; 32]) -> (k: Pubkey)
        ensures
            k@ == bytes@,
    {
        Pubkey { bytes }
    }

    /// The bytes of the address, as the seeds of a program address take them.
    pub fn to_bytes(&self) -> (b: Vec<u8>)
        ensures
            b@ == self@,
    {
        let mut b: Vec<u8> = Vec::new();
        let mut i: usize = 0;
        while i < 32
            invariant
                i <= 32,
                b@ == self@.subrange(0, i as int),
            decreases 32 - i,
        {
            b.push(self.bytes[i]);
            i = i + 1;
        }
        assert(self@.subrange(0, 32) =~= self@);
        b
    }

    /// Whether this is the all-zero address.
    pub fn is_default(&self) -> (r: bool)
        ensures
            r == (self@ == zero_key()),
    {
        let zero = Pubkey::default();
        *self == zero
    }
}

impl Default for Pubkey {
    fn default() -> (k: Pubkey)
        ensures
            k@ == zero_key(),
    {
        let k = Pubkey { bytes: [0u8; 32] };
        assert(k@ =~= zero_key());
        k
    }
}

impl PartialEq for Pubkey {
    fn eq(&self, other: &Self) -> (r: bool) {
        let mut i: usize = 0;
        while i < 32
            invariant
                i <= 32,
                forall|j: int| 0 <= j < i ==> self.bytes@[j] == other.bytes@[j],
            decreases 32 - i,
        {
            if self.bytes[i] != other.bytes[i] {
                return false;
            }
            i = i + 1;
        }
        assert(self.bytes@ =~= other.bytes@);
        true
    }
}

impl Eq for Pubkey {}

impl vstd::std_specs::cmp::PartialEqSpecImpl for Pubkey {
    open spec fn obeys_eq_spec() -> bool {
        true
    }

    open spec fn eq_spec(&self, other: &Self) -> bool {
        self@ == other@
    }
}

} // verus!
