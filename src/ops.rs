//! Operators on secrets, forwarded to the carried values.
//!
//! Each operator that the carried type has, the secret has too, with the same
//! meaning; what comes out of an operation on secrets is itself a secret.
//! The operators ask, as the carried type's do, that the operation be defined
//! on the two values (for integers: no overflow, no division by zero, no shift
//! past the width). `&=`, `|=` and `^=` forward to the carried type's own
//! in-place operators; the other in-place forms are methods built on the
//! binary operators, so that they carry the same precondition.
use crate::Secret;
use vstd::prelude::*;
use vstd::std_specs::ops::{AddSpec, SubSpec, MulSpec, DivSpec, RemSpec, BitAndSpec, BitOrSpec, BitXorSpec, ShlSpec, ShrSpec, NegSpec, NotSpec};

verus! {

/// `a + b` on secrets is `+` on the carried values, kept secret.
impl<T: core::ops::Add<U>, U> core::ops::Add<Secret<U>> for Secret<T> {
    type Output = Secret<T::Output>;

    fn add(self, rhs: Secret<U>) -> Secret<T::Output> {
        Secret::new(self.0.add(rhs.0))
    }
}

impl<T: core::ops::Add<U>, U> vstd::std_specs::ops::AddSpecImpl<Secret<U>> for Secret<T> {
    open spec fn obeys_add_spec() -> bool {
        <T as AddSpec<U>>::obeys_add_spec()
    }

    open spec fn add_req(self, rhs: Secret<U>) -> bool {
        self@.add_req(rhs@)
    }

    open spec fn add_spec(self, rhs: Secret<U>) -> Secret<T::Output> {
        Secret::wrap(self@.add_spec(rhs@))
    }
}

/// `a - b` on secrets is `-` on the carried values, kept secret.
impl<T: core::ops::Sub<U>, U> core::ops::Sub<Secret<U>> for Secret<T> {
    type Output = Secret<T::Output>;

    fn sub(self, rhs: Secret<U>) -> Secret<T::Output> {
        Secret::new(self.0.sub(rhs.0))
    }
}

impl<T: core::ops::Sub<U>, U> vstd::std_specs::ops::SubSpecImpl<Secret<U>> for Secret<T> {
    open spec fn obeys_sub_spec() -> bool {
        <T as SubSpec<U>>::obeys_sub_spec()
    }

    open spec fn sub_req(self, rhs: Secret<U>) -> bool {
        self@.sub_req(rhs@)
    }

    open spec fn sub_spec(self, rhs: Secret<U>) -> Secret<T::Output> {
        Secret::wrap(self@.sub_spec(rhs@))
    }
}

/// `a * b` on secrets is `*` on the carried values, kept secret.
impl<T: core::ops::Mul<U>, U> core::ops::Mul<Secret<U>> for Secret<T> {
    type Output = Secret<T::Output>;

    fn mul(self, rhs: Secret<U>) -> Secret<T::Output> {
        Secret::new(self.0.mul(rhs.0))
    }
}

impl<T: core::ops::Mul<U>, U> vstd::std_specs::ops::MulSpecImpl<Secret<U>> for Secret<T> {
    open spec fn obeys_mul_spec() -> bool {
        <T as MulSpec<U>>::obeys_mul_spec()
    }

    open spec fn mul_req(self, rhs: Secret<U>) -> bool {
        self@.mul_req(rhs@)
    }

    open spec fn mul_spec(self, rhs: Secret<U>) -> Secret<T::Output> {
        Secret::wrap(self@.mul_spec(rhs@))
    }
}

/// `a / b` on secrets is `/` on the carried values, kept secret.
impl<T: core::ops::Div<U>, U> core::ops::Div<Secret<U>> for Secret<T> {
    type Output = Secret<T::Output>;

    fn div(self, rhs: Secret<U>) -> Secret<T::Output> {
        Secret::new(self.0.div(rhs.0))
    }
}

impl<T: core::ops::Div<U>, U> vstd::std_specs::ops::DivSpecImpl<Secret<U>> for Secret<T> {
    open spec fn obeys_div_spec() -> bool {
        <T as DivSpec<U>>::obeys_div_spec()
    }

    open spec fn div_req(self, rhs: Secret<U>) -> bool {
        self@.div_req(rhs@)
    }

    open spec fn div_spec(self, rhs: Secret<U>) -> Secret<T::Output> {
        Secret::wrap(self@.div_spec(rhs@))
    }
}

/// `a % b` on secrets is `%` on the carried values, kept secret.
impl<T: core::ops::Rem<U>, U> core::ops::Rem<Secret<U>> for Secret<T> {
    type Output = Secret<T::Output>;

    fn rem(self, rhs: Secret<U>) -> Secret<T::Output> {
        Secret::new(self.0.rem(rhs.0))
    }
}

impl<T: core::ops::Rem<U>, U> vstd::std_specs::ops::RemSpecImpl<Secret<U>> for Secret<T> {
    open spec fn obeys_rem_spec() -> bool {
        <T as RemSpec<U>>::obeys_rem_spec()
    }

    open spec fn rem_req(self, rhs: Secret<U>) -> bool {
        self@.rem_req(rhs@)
    }

    open spec fn rem_spec(self, rhs: Secret<U>) -> Secret<T::Output> {
        Secret::wrap(self@.rem_spec(rhs@))
    }
}

/// `a & b` on secrets is `&` on the carried values, kept secret.
impl<T: core::ops::BitAnd<U>, U> core::ops::BitAnd<Secret<U>> for Secret<T> {
    type Output = Secret<T::Output>;

    fn bitand(self, rhs: Secret<U>) -> Secret<T::Output> {
        Secret::new(self.0.bitand(rhs.0))
    }
}

impl<T: core::ops::BitAnd<U>, U> vstd::std_specs::ops::BitAndSpecImpl<Secret<U>> for Secret<T> {
    open spec fn obeys_bitand_spec() -> bool {
        <T as BitAndSpec<U>>::obeys_bitand_spec()
    }

    open spec fn bitand_req(self, rhs: Secret<U>) -> bool {
        self@.bitand_req(rhs@)
    }

    open spec fn bitand_spec(self, rhs: Secret<U>) -> Secret<T::Output> {
        Secret::wrap(self@.bitand_spec(rhs@))
    }
}

/// `a | b` on secrets is `|` on the carried values, kept secret.
impl<T: core::ops::BitOr<U>, U> core::ops::BitOr<Secret<U>> for Secret<T> {
    type Output = Secret<T::Output>;

    fn bitor(self, rhs: Secret<U>) -> Secret<T::Output> {
        Secret::new(self.0.bitor(rhs.0))
    }
}

impl<T: core::ops::BitOr<U>, U> vstd::std_specs::ops::BitOrSpecImpl<Secret<U>> for Secret<T> {
    open spec fn obeys_bitor_spec() -> bool {
        <T as BitOrSpec<U>>::obeys_bitor_spec()
    }

    open spec fn bitor_req(self, rhs: Secret<U>) -> bool {
        self@.bitor_req(rhs@)
    }

    open spec fn bitor_spec(self, rhs: Secret<U>) -> Secret<T::Output> {
        Secret::wrap(self@.bitor_spec(rhs@))
    }
}

/// `a ^ b` on secrets is `^` on the carried values, kept secret.
impl<T: core::ops::BitXor<U>, U> core::ops::BitXor<Secret<U>> for Secret<T> {
    type Output = Secret<T::Output>;

    fn bitxor(self, rhs: Secret<U>) -> Secret<T::Output> {
        Secret::new(self.0.bitxor(rhs.0))
    }
}

impl<T: core::ops::BitXor<U>, U> vstd::std_specs::ops::BitXorSpecImpl<Secret<U>> for Secret<T> {
    open spec fn obeys_bitxor_spec() -> bool {
        <T as BitXorSpec<U>>::obeys_bitxor_spec()
    }

    open spec fn bitxor_req(self, rhs: Secret<U>) -> bool {
        self@.bitxor_req(rhs@)
    }

    open spec fn bitxor_spec(self, rhs: Secret<U>) -> Secret<T::Output> {
        Secret::wrap(self@.bitxor_spec(rhs@))
    }
}

/// `a << b` on secrets is `<<` on the carried values, kept secret.
impl<T: core::ops::Shl<U>, U> core::ops::Shl<Secret<U>> for Secret<T> {
    type Output = Secret<T::Output>;

    fn shl(self, rhs: Secret<U>) -> Secret<T::Output> {
        Secret::new(self.0.shl(rhs.0))
    }
}

impl<T: core::ops::Shl<U>, U> vstd::std_specs::ops::ShlSpecImpl<Secret<U>> for Secret<T> {
    open spec fn obeys_shl_spec() -> bool {
        <T as ShlSpec<U>>::obeys_shl_spec()
    }

    open spec fn shl_req(self, rhs: Secret<U>) -> bool {
        self@.shl_req(rhs@)
    }

    open spec fn shl_spec(self, rhs: Secret<U>) -> Secret<T::Output> {
        Secret::wrap(self@.shl_spec(rhs@))
    }
}

/// `a >> b` on secrets is `>>` on the carried values, kept secret.
impl<T: core::ops::Shr<U>, U> core::ops::Shr<Secret<U>> for Secret<T> {
    type Output = Secret<T::Output>;

    fn shr(self, rhs: Secret<U>) -> Secret<T::Output> {
        Secret::new(self.0.shr(rhs.0))
    }
}

impl<T: core::ops::Shr<U>, U> vstd::std_specs::ops::ShrSpecImpl<Secret<U>> for Secret<T> {
    open spec fn obeys_shr_spec() -> bool {
        <T as ShrSpec<U>>::obeys_shr_spec()
    }

    open spec fn shr_req(self, rhs: Secret<U>) -> bool {
        self@.shr_req(rhs@)
    }

    open spec fn shr_spec(self, rhs: Secret<U>) -> Secret<T::Output> {
        Secret::wrap(self@.shr_spec(rhs@))
    }
}

/// `-a` on a secret is `-` on the carried value, kept secret.
impl<T: core::ops::Neg> core::ops::Neg for Secret<T> {
    type Output = Secret<T::Output>;

    fn neg(self) -> Secret<T::Output> {
        Secret::new(self.0.neg())
    }
}

impl<T: core::ops::Neg> vstd::std_specs::ops::NegSpecImpl for Secret<T> {
    open spec fn obeys_neg_spec() -> bool {
        <T as NegSpec>::obeys_neg_spec()
    }

    open spec fn neg_req(self) -> bool {
        self@.neg_req()
    }

    open spec fn neg_spec(self) -> Secret<T::Output> {
        Secret::wrap(self@.neg_spec())
    }
}

/// `!a` on a secret is `!` on the carried value, kept secret.
impl<T: core::ops::Not> core::ops::Not for Secret<T> {
    type Output = Secret<T::Output>;

    fn not(self) -> Secret<T::Output> {
        Secret::new(self.0.not())
    }
}

impl<T: core::ops::Not> vstd::std_specs::ops::NotSpecImpl for Secret<T> {
    open spec fn obeys_not_spec() -> bool {
        <T as NotSpec>::obeys_not_spec()
    }

    open spec fn not_req(self) -> bool {
        self@.not_req()
    }

    open spec fn not_spec(self) -> Secret<T::Output> {
        Secret::wrap(self@.not_spec())
    }
}

impl<T> Secret<T> {
    /// `a += b` on secrets: the carried value becomes `a + b`.
    ///
    /// Asked only where `+` is defined on the two values (for integers:
    /// no overflow).
    pub fn add_assign<U>(&mut self, rhs: Secret<U>)
        where
            T: core::ops::Add<U, Output = T> + Default,
        requires
            old(self)@.add_req(rhs@),
        ensures
            <T as AddSpec<U>>::obeys_add_spec() ==> final(self)@ == old(self)@.add_spec(rhs@),
    {
        let mut current = T::default();
        core::mem::swap(&mut current, &mut self.0);
        self.0 = current.add(rhs.0);
    }
}

impl<T> Secret<T> {
    /// `a -= b` on secrets: the carried value becomes `a - b`.
    ///
    /// Asked only where `-` is defined on the two values (for integers:
    /// no overflow).
    pub fn sub_assign<U>(&mut self, rhs: Secret<U>)
        where
            T: core::ops::Sub<U, Output = T> + Default,
        requires
            old(self)@.sub_req(rhs@),
        ensures
            <T as SubSpec<U>>::obeys_sub_spec() ==> final(self)@ == old(self)@.sub_spec(rhs@),
    {
        let mut current = T::default();
        core::mem::swap(&mut current, &mut self.0);
        self.0 = current.sub(rhs.0);
    }
}

impl<T> Secret<T> {
    /// `a *= b` on secrets: the carried value becomes `a * b`.
    ///
    /// Asked only where `*` is defined on the two values (for integers:
    /// no overflow).
    pub fn mul_assign<U>(&mut self, rhs: Secret<U>)
        where
            T: core::ops::Mul<U, Output = T> + Default,
        requires
            old(self)@.mul_req(rhs@),
        ensures
            <T as MulSpec<U>>::obeys_mul_spec() ==> final(self)@ == old(self)@.mul_spec(rhs@),
    {
        let mut current = T::default();
        core::mem::swap(&mut current, &mut self.0);
        self.0 = current.mul(rhs.0);
    }
}

impl<T> Secret<T> {
    /// `a /= b` on secrets: the carried value becomes `a / b`.
    ///
    /// Asked only where `/` is defined on the two values (for integers:
    /// no division by zero, no overflow).
    pub fn div_assign<U>(&mut self, rhs: Secret<U>)
        where
            T: core::ops::Div<U, Output = T> + Default,
        requires
            old(self)@.div_req(rhs@),
        ensures
            <T as DivSpec<U>>::obeys_div_spec() ==> final(self)@ == old(self)@.div_spec(rhs@),
    {
        let mut current = T::default();
        core::mem::swap(&mut current, &mut self.0);
        self.0 = current.div(rhs.0);
    }
}

impl<T> Secret<T> {
    /// `a %= b` on secrets: the carried value becomes `a % b`.
    ///
    /// Asked only where `%` is defined on the two values (for integers:
    /// no division by zero, no overflow).
    pub fn rem_assign<U>(&mut self, rhs: Secret<U>)
        where
            T: core::ops::Rem<U, Output = T> + Default,
        requires
            old(self)@.rem_req(rhs@),
        ensures
            <T as RemSpec<U>>::obeys_rem_spec() ==> final(self)@ == old(self)@.rem_spec(rhs@),
    {
        let mut current = T::default();
        core::mem::swap(&mut current, &mut self.0);
        self.0 = current.rem(rhs.0);
    }
}

/// Relies on `core::ops::BitAndAssign::bitand_assign` of the carried type, which
/// updates the value in place; nothing is known of the new value.
#[verifier::external_body]
fn bitand_assign_in<A: core::ops::BitAndAssign<B>, B>(a: &mut A, b: B) {
    *a &= b
}

/// `a &= b` on secrets updates the carried value in place.
impl<T: core::ops::BitAndAssign<U>, U> core::ops::BitAndAssign<Secret<U>> for Secret<T> {
    fn bitand_assign(&mut self, rhs: Secret<U>) {
        bitand_assign_in(&mut self.0, rhs.0)
    }
}

/// Relies on `core::ops::BitOrAssign::bitor_assign` of the carried type, which
/// updates the value in place; nothing is known of the new value.
#[verifier::external_body]
fn bitor_assign_in<A: core::ops::BitOrAssign<B>, B>(a: &mut A, b: B) {
    *a |= b
}

/// `a |= b` on secrets updates the carried value in place.
impl<T: core::ops::BitOrAssign<U>, U> core::ops::BitOrAssign<Secret<U>> for Secret<T> {
    fn bitor_assign(&mut self, rhs: Secret<U>) {
        bitor_assign_in(&mut self.0, rhs.0)
    }
}

/// Relies on `core::ops::BitXorAssign::bitxor_assign` of the carried type, which
/// updates the value in place; nothing is known of the new value.
#[verifier::external_body]
fn bitxor_assign_in<A: core::ops::BitXorAssign<B>, B>(a: &mut A, b: B) {
    *a ^= b
}

/// `a ^= b` on secrets updates the carried value in place.
impl<T: core::ops::BitXorAssign<U>, U> core::ops::BitXorAssign<Secret<U>> for Secret<T> {
    fn bitxor_assign(&mut self, rhs: Secret<U>) {
        bitxor_assign_in(&mut self.0, rhs.0)
    }
}

impl<T> Secret<T> {
    /// `a <<= b` on secrets: the carried value becomes `a << b`.
    ///
    /// Asked only where `<<` is defined on the two values (for integers:
    /// no shift past the width).
    pub fn shl_assign<U>(&mut self, rhs: Secret<U>)
        where
            T: core::ops::Shl<U, Output = T> + Default,
        requires
            old(self)@.shl_req(rhs@),
        ensures
            <T as ShlSpec<U>>::obeys_shl_spec() ==> final(self)@ == old(self)@.shl_spec(rhs@),
    {
        let mut current = T::default();
        core::mem::swap(&mut current, &mut self.0);
        self.0 = current.shl(rhs.0);
    }
}

impl<T> Secret<T> {
    /// `a >>= b` on secrets: the carried value becomes `a >> b`.
    ///
    /// Asked only where `>>` is defined on the two values (for integers:
    /// no shift past the width).
    pub fn shr_assign<U>(&mut self, rhs: Secret<U>)
        where
            T: core::ops::Shr<U, Output = T> + Default,
        requires
            old(self)@.shr_req(rhs@),
        ensures
            <T as ShrSpec<U>>::obeys_shr_spec() ==> final(self)@ == old(self)@.shr_spec(rhs@),
    {
        let mut current = T::default();
        core::mem::swap(&mut current, &mut self.0);
        self.0 = current.shr(rhs.0);
    }
}

} // verus!
