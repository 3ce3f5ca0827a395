//! What a serialization hook hands on when a field that holds secrets is
//! written out on purpose.
//!
//! A field may hold one secret, a reference to one, an optional secret or a
//! list of secrets. Each shape is turned into the same shape of references to
//! the carried values, by an exposure function passed in by the caller, so that
//! a single hook serves all of them and nothing exposes a value on its own.
use crate::Secret;
use vstd::prelude::*;

verus! {

/// A shape of zero or more secrets of type `T` that can be exposed for writing out.
pub trait SerializableSecret<'a, T: 'a> {
    /// The same shape, with a reference to the carried value in place of each secret.
    type Exposed;

    /// Whether `e` is this shape with each secret replaced by its carried value.
    spec fn is_exposed(&self, e: Self::Exposed) -> bool;

    /// Replaces each secret by what `expose` returns for it.
    ///
    /// `expose` is asked for so that only the sanctioned exposure function can
    /// be the one that reads the values.
    fn expose_via<F: Fn(&'a Secret<T>) -> &'a T>(&'a self, expose: F) -> (r: Self::Exposed)
        requires
            forall|s: &'a Secret<T>| expose.requires((s,)),
            forall|s: &'a Secret<T>, v: &'a T| expose.ensures((s,), v) ==> *v == s@,
        ensures
            self.is_exposed(r),
    ;
}

impl<'a, T: 'a> SerializableSecret<'a, T> for Secret<T> {
    type Exposed = &'a T;

    open spec fn is_exposed(&self, e: &'a T) -> bool {
        *e == self@
    }

    fn expose_via<F: Fn(&'a Secret<T>) -> &'a T>(&'a self, expose: F) -> (r: &'a T) {
        expose(self)
    }
}

impl<'a, 'b: 'a, T: 'a> SerializableSecret<'a, T> for &'b Secret<T> {
    type Exposed = &'a T;

    open spec fn is_exposed(&self, e: &'a T) -> bool {
        *e == (**self)@
    }

    fn expose_via<F: Fn(&'a Secret<T>) -> &'a T>(&'a self, expose: F) -> (r: &'a T) {
        expose(*self)
    }
}

impl<'a, T: 'a> SerializableSecret<'a, T> for Option<Secret<T>> {
    type Exposed = Option<&'a T>;

    open spec fn is_exposed(&self, e: Option<&'a T>) -> bool {
        match (*self, e) {
            (Some(s), Some(v)) => *v == s@,
            (None, None) => true,
            _ => false,
        }
    }

    fn expose_via<F: Fn(&'a Secret<T>) -> &'a T>(&'a self, expose: F) -> (r: Option<&'a T>) {
        match self {
            Some(s) => Some(expose(s)),
            None => None,
        }
    }
}

impl<'a, T: 'a> SerializableSecret<'a, T> for Vec<Secret<T>> {
    type Exposed = Vec<&'a T>;

    open spec fn is_exposed(&self, e: Vec<&'a T>) -> bool {
        &&& e@.len() == self@.len()
        &&& forall|i: int| 0 <= i < e@.len() ==> *e@[i] == #[trigger] self@[i]@
    }

    fn expose_via<F: Fn(&'a Secret<T>) -> &'a T>(&'a self, expose: F) -> (r: Vec<&'a T>) {
        let mut out: Vec<&'a T> = Vec::new();
        let mut i: usize = 0;
        while i < self.len()
            invariant
                i <= self@.len(),
                out@.len() == i,
                forall|s: &'a Secret<T>| expose.requires((s,)),
                forall|s: &'a Secret<T>, v: &'a T| expose.ensures((s,), v) ==> *v == s@,
                forall|k: int| 0 <= k < i ==> *out@[k] == #[trigger] self@[k]@,
            decreases self@.len() - i,
        {
            let v = expose(&self[i]);
            out.push(v);
            i = i + 1;
        }
        out
    }
}

/// Exposes the secrets of a field for writing out: the shape of `secret`, with
/// a reference to each carried value in place of each secret.
///
/// This is the one path by which a serialization hook reaches carried values;
/// for exposure in general see [`Secret::expose_secret`].
pub fn expose_secret<'a, T: 'a, X: SerializableSecret<'a, T>>(secret: &'a X) -> (r: X::Exposed)
    ensures
        secret.is_exposed(r),
{
    secret.expose_via(Secret::expose_secret)
}

} // verus!
