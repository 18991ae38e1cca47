//! Results as the application passes them around: with an error that can be shared.

use std::sync::Arc;
use vstd::prelude::*;

verus! {

/// How a result with a shared error corresponds to a result with an owned one: the
/// same value, or the same error.
pub open spec fn shares<T, E>(shared: Result<T, Arc<E>>, owned: Result<T, E>) -> bool {
    match (shared, owned) {
        (Ok(a), Ok(b)) => a == b,
        (Err(a), Err(b)) => *a == b,
        _ => false,
    }
}

/// Puts the error of a result behind a shared pointer; a value stays as it is.
pub fn share_result<T, E>(owned: Result<T, E>) -> (shared: Result<T, Arc<E>>)
    ensures
        shares(shared, owned),
{
    match owned {
        Ok(t) => Ok(t),
        Err(e) => Err(Arc::new(e)),
    }
}

/// Makes of `f`, which takes results with a shared error, a function that takes
/// results with an owned error: it shares the error and hands the result to `f`.
pub fn map_result_message<T, E, Message, F: FnOnce(Result<T, Arc<E>>) -> Message>(f: F) -> (g:
    impl FnOnce(Result<T, E>) -> Message)
    requires
        forall|r: Result<T, Arc<E>>| call_requires(f, (r,)),
    ensures
        forall|r: Result<T, E>| call_requires(g, (r,)),
        forall|r: Result<T, E>, m: Message| #[trigger]
            call_ensures(g, (r,), m) ==> exists|s: Result<T, Arc<E>>|
                shares(s, r) && call_ensures(f, (s,), m),
{
    move |r: Result<T, E>| -> (m: Message)
        ensures
            exists|s: Result<T, Arc<E>>| shares(s, r) && call_ensures(f, (s,), m),
        {
            let shared = share_result(r);
            let ghost s = shared;
            let m = f(shared);
            assert(shares(s, r) && call_ensures(f, (s,), m));
            m
        }
}

} // verus!
