//! Clearing the memory that holds a secret.
//!
//! Clearing forwards to the carried type's own clearing; a secret whose
//! carried type clears itself on drop does too.
use crate::Secret;
use vstd::prelude::*;

verus! {

/// Relies on `zeroize::Zeroize::zeroize` of the carried type, which overwrites
/// the value in place with that type's cleared pattern.
#[verifier::external_body]
fn zeroize_value<Z: zeroize::Zeroize>(z: &mut Z) {
    z.zeroize()
}

/// Relies on `zeroize::TryZeroize::try_zeroize` of the carried type, which
/// clears the value where it can and says whether it did.
#[verifier::external_body]
fn try_zeroize_value<Z: zeroize::TryZeroize>(z: &mut Z) -> bool {
    z.try_zeroize()
}

/// Relies on `zeroize::Zeroize::zeroize` of `[u8; N]`, which clears each byte
/// to `u8::default()`, that is to zero, and keeps the length.
#[verifier::external_body]
fn zeroize_bytes<const N: usize>(b: &mut [u8; N])
    ensures
        forall|i: int| 0 <= i < N ==> final(b)@[i] == 0u8,
{
    zeroize::Zeroize::zeroize(b)
}

/// Clearing a secret clears the carried value.
impl<T: zeroize::Zeroize> zeroize::Zeroize for Secret<T> {
    fn zeroize(&mut self) {
        zeroize_value(&mut self.0)
    }
}

/// Clearing a secret where possible clears the carried value where possible,
/// and says whether it did.
impl<T: zeroize::TryZeroize> zeroize::TryZeroize for Secret<T> {
    fn try_zeroize(&mut self) -> bool {
        try_zeroize_value(&mut self.0)
    }
}

/// A secret clears itself on drop when its carried value does.
impl<T: zeroize::ZeroizeOnDrop> zeroize::ZeroizeOnDrop for Secret<T> {

}

impl<const N: usize> Secret<[u8; N]> {
    /// Clears a secret byte buffer: every byte becomes zero and the length stays.
    pub fn clear(&mut self)
        ensures
            final(self)@@ == Seq::new(N as nat, |i: int| 0u8),
    {
        zeroize_bytes(&mut self.0);
        assert(self@@ =~= Seq::new(N as nat, |i: int| 0u8));
    }
}

} // verus!
