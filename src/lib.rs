//! A wrapper that marks a value as sensitive and keeps it out of diagnostic text.
//!
//! A [`Secret`] carries exactly one value. Nothing prints, formats or serializes
//! that value by accident: the only way to read it is [`Secret::expose_secret`],
//! and the text that stands for a secret is a fixed marker that never depends
//! on the carried value.
use vstd::prelude::*;
use vstd::std_specs::convert::{IntoSpec, TryIntoSpec};

pub mod combine;
pub mod hygiene;
pub mod ops;
pub mod redaction;
pub mod serialize;

pub use crate::redaction::redaction_marker;
pub use crate::serialize::{expose_secret, SerializableSecret};

verus! {

/// Holds one value that must not be printed, logged or serialized by accident.
///
/// The only way to read the value is [`Secret::expose_secret`]. Equality,
/// ordering, hashing and cloning go to the carried type: none of them prints.
#[derive(Clone, Copy, Hash, PartialEq, Eq, PartialOrd, Ord, Default)]
pub struct Secret<T>(T);

impl<T> View for Secret<T> {
    type V = T;

    /// The carried value.
    closed spec fn view(&self) -> T {
        self.0
    }
}

impl<T> Secret<T> {
    /// The secret that carries `v`.
    pub closed spec fn wrap(v: T) -> Secret<T> {
        Secret(v)
    }

    /// Wraps `secret`; never fails.
    pub fn new(secret: T) -> (r: Self)
        ensures
            r == Secret::wrap(secret),
            r@ == secret,
    {
        Secret(secret)
    }

    /// Wraps the result of the infallible conversion of `secret` into `T`.
    pub fn from<V: Into<T>>(secret: V) -> (r: Self)
        ensures
            V::obeys_into_spec() ==> r@ == secret.into_spec(),
    {
        Secret(secret.into())
    }

    /// Wraps the result of the fallible conversion of `secret` into `T`.
    ///
    /// A conversion error is wrapped too: it may hold part of the input.
    pub fn try_from<U: TryInto<T>>(secret: U) -> (r: Result<Self, Secret<U::Error>>)
        ensures
            U::obeys_try_into_spec() ==> match (r, secret.try_into_spec()) {
                (Ok(s), Ok(v)) => s@ == v,
                (Err(e), Err(x)) => e@ == x,
                _ => false,
            },
    {
        match secret.try_into() {
            Ok(v) => Ok(Secret(v)),
            Err(e) => Err(Secret(e)),
        }
    }

    /// Returns a reference to the carried value: the one sanctioned way to read it.
    pub fn expose_secret(&self) -> (r: &T)
        ensures
            *r == self@,
    {
        &self.0
    }
}

impl<T> From<T> for Secret<T> {
    fn from(secret: T) -> Self {
        Secret::new(secret)
    }
}

impl<T> vstd::std_specs::convert::FromSpecImpl<T> for Secret<T> {
    open spec fn obeys_from_spec() -> bool {
        true
    }

    open spec fn from_spec(v: T) -> Secret<T> {
        Secret::wrap(v)
    }
}

/// The secret built from a value carries that value, and a secret is the one
/// built from the value it carries.
pub proof fn lemma_wrap_view<T>(v: T, s: Secret<T>)
    ensures
        Secret::wrap(v)@ == v,
        Secret::wrap(s@) == s,
{
}

/// Exposing the secret that was made from `v` gives back `v`.
pub proof fn lemma_expose_after_new<T>(v: T)
    ensures
        Secret::wrap(v)@ == v,
        forall|s: Secret<T>| s@ == v <==> s == Secret::wrap(v),
{
}

} // verus!
