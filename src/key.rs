use vstd::prelude::*;

verus! {

/// The number of bytes in an account address.
pub const KEY_LEN: usize = 32;

/// An account address: a mint, a wallet, a token account or the vault itself.
///
/// The address made of zero bytes only is the "unset" value: a vault whose
/// claw mint holds it has no authorization token bound yet.
#[derive(Clone, Copy, Debug)]
pub struct Key {
    pub bytes: [u8; 32],
}

impl Key {
    pub open spec fn view(&self) -> Seq<u8> {
        self.bytes@
    }

    /// True of the all-zero address, the sentinel for "no key".
    pub open spec fn spec_is_unset(&self) -> bool {
        forall|i: int| 0 <= i < self@.len() ==> self@[i] == 0u8
    }

    /// The all-zero address.
    pub fn unset() -> (r: Key)
        ensures
            r.spec_is_unset(),
    {
        Key { bytes: [0u8; 32] }
    }

    pub fn new(bytes: [u8; 32]) -> (r: Key)
        ensures
            r@ == bytes@,
    {
        Key { bytes }
    }

    /// Whether this is the all-zero address.
    pub fn is_unset(&self) -> (r: bool)
        ensures
            r == self.spec_is_unset(),
    {
        let mut i: usize = 0;
        while i < KEY_LEN
            invariant
                i <= KEY_LEN,
                self@.len() == KEY_LEN,
                forall|j: int| 0 <= j < i ==> self@[j] == 0u8,
            decreases KEY_LEN - i,
        {
            if self.bytes[i] != 0u8 {
                return false;
            }
            i = i + 1;
        }
        true
    }

    /// Whether two addresses hold the same bytes.
    pub fn same(&self, other: &Key) -> (r: bool)
        ensures
            r == (self@ == other@),
    {
        let mut i: usize = 0;
        while i < KEY_LEN
            invariant
                i <= KEY_LEN,
                self@.len() == KEY_LEN,
                other@.len() == KEY_LEN,
                forall|j: int| 0 <= j < i ==> self@[j] == other@[j],
            decreases KEY_LEN - i,
        {
            if self.bytes[i] != other.bytes[i] {
                return false;
            }
            i = i + 1;
        }
        assert(self@ =~= other@);
        true
    }
}

impl PartialEq for Key {
    fn eq(&self, other: &Key) -> (r: bool) {
        self.same(other)
    }
}

impl vstd::std_specs::cmp::PartialEqSpecImpl for Key {
    open spec fn obeys_eq_spec() -> bool {
        true
    }

    open spec fn eq_spec(&self, other: &Key) -> bool {
        self@ == other@
    }
}

impl Eq for Key {
}

} // verus!
