//! Moving the secret marker between a container and the values inside it.
//!
//! `Option<Secret<T>>` and `Secret<Option<T>>` say the same thing, as do the
//! `Result` forms; a list of secrets can be gathered into one secret list.
use crate::Secret;
use vstd::prelude::*;

verus! {

/// One secret that carries the option of the values that `o` carries.
pub open spec fn gather_option<T>(o: Option<Secret<T>>) -> Secret<Option<T>> {
    Secret::wrap(
        match o {
            Some(s) => Some(s@),
            None => None,
        },
    )
}

/// The option of secrets that carries what `s` carries.
pub open spec fn spread_option<T>(s: Secret<Option<T>>) -> Option<Secret<T>> {
    match s@ {
        Some(v) => Some(Secret::wrap(v)),
        None => None,
    }
}

/// One secret that carries the result whose success value `r` carries as a secret.
pub open spec fn gather_ok<T, E>(r: Result<Secret<T>, E>) -> Secret<Result<T, E>> {
    Secret::wrap(
        match r {
            Ok(s) => Ok(s@),
            Err(e) => Err(e),
        },
    )
}

/// One secret that carries the result whose error `r` carries as a secret.
pub open spec fn gather_err<T, E>(r: Result<T, Secret<E>>) -> Secret<Result<T, E>> {
    Secret::wrap(
        match r {
            Ok(v) => Ok(v),
            Err(s) => Err(s@),
        },
    )
}

/// One secret that carries the result whose both sides `r` carries as secrets.
pub open spec fn gather_result<T, E>(r: Result<Secret<T>, Secret<E>>) -> Secret<Result<T, E>> {
    Secret::wrap(
        match r {
            Ok(s) => Ok(s@),
            Err(s) => Err(s@),
        },
    )
}

/// The result of secrets that carries what `s` carries.
pub open spec fn spread_result<T, E>(s: Secret<Result<T, E>>) -> Result<Secret<T>, Secret<E>> {
    match s@ {
        Ok(v) => Ok(Secret::wrap(v)),
        Err(e) => Err(Secret::wrap(e)),
    }
}

impl<T> From<Option<Secret<T>>> for Secret<Option<T>> {
    fn from(secret: Option<Secret<T>>) -> Self {
        match secret {
            Some(s) => Secret::new(Some(s.0)),
            None => Secret::new(None),
        }
    }
}

impl<T> vstd::std_specs::convert::FromSpecImpl<Option<Secret<T>>> for Secret<Option<T>> {
    open spec fn obeys_from_spec() -> bool {
        true
    }

    open spec fn from_spec(v: Option<Secret<T>>) -> Secret<Option<T>> {
        gather_option(v)
    }
}

impl<T, E> From<Result<Secret<T>, E>> for Secret<Result<T, E>> {
    fn from(secret: Result<Secret<T>, E>) -> Self {
        match secret {
            Ok(s) => Secret::new(Ok(s.0)),
            Err(e) => Secret::new(Err(e)),
        }
    }
}

impl<T, E> vstd::std_specs::convert::FromSpecImpl<Result<Secret<T>, E>> for Secret<Result<T, E>> {
    open spec fn obeys_from_spec() -> bool {
        true
    }

    open spec fn from_spec(v: Result<Secret<T>, E>) -> Secret<Result<T, E>> {
        gather_ok(v)
    }
}

impl<T, E> From<Result<T, Secret<E>>> for Secret<Result<T, E>> {
    fn from(secret: Result<T, Secret<E>>) -> Self {
        match secret {
            Ok(v) => Secret::new(Ok(v)),
            Err(s) => Secret::new(Err(s.0)),
        }
    }
}

impl<T, E> vstd::std_specs::convert::FromSpecImpl<Result<T, Secret<E>>> for Secret<Result<T, E>> {
    open spec fn obeys_from_spec() -> bool {
        true
    }

    open spec fn from_spec(v: Result<T, Secret<E>>) -> Secret<Result<T, E>> {
        gather_err(v)
    }
}

impl<T, E> From<Result<Secret<T>, Secret<E>>> for Secret<Result<T, E>> {
    fn from(secret: Result<Secret<T>, Secret<E>>) -> Self {
        match secret {
            Ok(s) => Secret::new(Ok(s.0)),
            Err(s) => Secret::new(Err(s.0)),
        }
    }
}

impl<T, E> vstd::std_specs::convert::FromSpecImpl<Result<Secret<T>, Secret<E>>> for Secret<Result<T, E>> {
    open spec fn obeys_from_spec() -> bool {
        true
    }

    open spec fn from_spec(v: Result<Secret<T>, Secret<E>>) -> Secret<Result<T, E>> {
        gather_result(v)
    }
}

impl<T> Secret<Option<T>> {
    /// Moves the secret marker inside the option.
    pub fn transpose(self) -> (r: Option<Secret<T>>)
        ensures
            r == spread_option(self),
    {
        match self.0 {
            Some(v) => Some(Secret::new(v)),
            None => None,
        }
    }
}

impl<T, E> Secret<Result<T, E>> {
    /// Moves the secret marker onto both sides of the result.
    pub fn transpose(self) -> (r: Result<Secret<T>, Secret<E>>)
        ensures
            r == spread_result(self),
    {
        match self.0 {
            Ok(v) => Ok(Secret::new(v)),
            Err(e) => Err(Secret::new(e)),
        }
    }
}

impl<T> Secret<Vec<T>> {
    /// Gathers a list of secrets into one secret list, keeping their order.
    pub fn from_iter(items: Vec<Secret<T>>) -> (r: Self)
        ensures
            r@@ == items@.map_values(|s: Secret<T>| s@),
    {
        let ghost n = items@.len();
        let mut rest = items;
        let mut reversed: Vec<T> = Vec::new();
        while rest.len() > 0
            invariant
                rest@.len() + reversed@.len() == n,
                n == items@.len(),
                forall|i: int| 0 <= i < rest@.len() ==> rest@[i] == items@[i],
                forall|j: int| 0 <= j < reversed@.len() ==> reversed@[j] == items@[n - 1 - j]@,
            decreases rest@.len(),
        {
            match rest.pop() {
                Some(s) => reversed.push(s.0),
                None => {},
            }
        }
        let mut out: Vec<T> = Vec::new();
        while reversed.len() > 0
            invariant
                reversed@.len() + out@.len() == n,
                n == items@.len(),
                forall|j: int| 0 <= j < reversed@.len() ==> reversed@[j] == items@[n - 1 - j]@,
                forall|k: int| 0 <= k < out@.len() ==> out@[k] == items@[k]@,
            decreases reversed@.len(),
        {
            match reversed.pop() {
                Some(v) => out.push(v),
                None => {},
            }
        }
        assert(out@ =~= items@.map_values(|s: Secret<T>| s@));
        Secret::new(out)
    }
}

/// Moving the secret marker into an option and back out again changes nothing,
/// in either order.
pub proof fn lemma_option_round_trip<T>(s: Secret<Option<T>>, o: Option<Secret<T>>)
    ensures
        gather_option(spread_option(s)) == s,
        spread_option(gather_option(o)) == o,
{
    crate::lemma_wrap_view(s@, s);
    match o {
        Some(x) => crate::lemma_wrap_view(x@, x),
        None => crate::lemma_wrap_view(None::<T>, s),
    }
}

/// Moving the secret marker onto both sides of a result and back changes
/// nothing, in either order.
pub proof fn lemma_result_round_trip<T, E>(
    s: Secret<Result<T, E>>,
    r: Result<Secret<T>, Secret<E>>,
)
    ensures
        gather_result(spread_result(s)) == s,
        spread_result(gather_result(r)) == r,
{
    crate::lemma_wrap_view(s@, s);
    match r {
        Ok(x) => {
            crate::lemma_wrap_view(x@, x);
            crate::lemma_wrap_view(Ok::<T, E>(x@), s);
        },
        Err(x) => {
            crate::lemma_wrap_view(x@, x);
            crate::lemma_wrap_view(Err::<T, E>(x@), s);
        },
    }
}

} // verus!
