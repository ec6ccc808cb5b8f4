//! The sequence engine: composition of dependent request steps.
//!
//! A sequence's outcome is a `Result`: exactly one typed success value or
//! one typed error. The combinators here are the primitive compositions —
//! transform a success, chain a dependent step, thread explicit state,
//! intercept an error — each with a contract that pins how outcomes flow.
//! Laziness is the driver's business: a blocking or a suspending driver
//! feeds each step's outcome into the next step function and gets
//! identical results, because every step is an ordinary function of the
//! previous outcome.

use vstd::prelude::*;

verus! {

/// The outcome of chaining a dependent step `f` after an outcome `r`:
/// `f` runs on the success value; a prior error short-circuits it.
pub open spec fn spec_chain<T, U, E>(
    r: Result<T, E>,
    f: spec_fn(T) -> Result<U, E>,
) -> Result<U, E> {
    match r {
        Result::Ok(t) => f(t),
        Result::Err(e) => Result::Err(e),
    }
}

/// Sequence composition is associative: running `f` then `g` after `r`
/// gives the same outcome whether the two steps are grouped left or
/// right.
pub proof fn lemma_chain_associative<A, B, C, E>(
    r: Result<A, E>,
    f: spec_fn(A) -> Result<B, E>,
    g: spec_fn(B) -> Result<C, E>,
)
    ensures
        spec_chain(spec_chain(r, f), g) == spec_chain(r, |a: A| spec_chain(f(a), g)),
{
}

/// Transform a success value; errors pass through untouched.
pub fn map_value<T, U, E, F: FnOnce(T) -> U>(r: Result<T, E>, f: F) -> (res: Result<U, E>)
    requires
        r matches Result::Ok(t) ==> call_requires(f, (t,)),
    ensures
        match r {
            Result::Ok(t) => res matches Result::Ok(u) && call_ensures(f, (t,), u),
            Result::Err(e) => res == Result::<U, E>::Err(e),
        },
{
    match r {
        Result::Ok(t) => Result::Ok(f(t)),
        Result::Err(e) => Result::Err(e),
    }
}

/// Run the dependent step `f` on the success value; a prior error
/// short-circuits it.
pub fn chain<T, U, E, F: FnOnce(T) -> Result<U, E>>(r: Result<T, E>, f: F) -> (res: Result<U, E>)
    requires
        r matches Result::Ok(t) ==> call_requires(f, (t,)),
    ensures
        match r {
            Result::Ok(t) => call_ensures(f, (t,), res),
            Result::Err(e) => res == Result::<U, E>::Err(e),
        },
{
    match r {
        Result::Ok(t) => f(t),
        Result::Err(e) => Result::Err(e),
    }
}

/// Like [`chain`], but threads an explicit state value into the step, for
/// data an earlier step computed that is not part of the success value.
pub fn state_chain<S, T, U, E, F: FnOnce(S, T) -> Result<U, E>>(
    state: S,
    r: Result<T, E>,
    f: F,
) -> (res: Result<U, E>)
    requires
        r matches Result::Ok(t) ==> call_requires(f, (state, t)),
    ensures
        match r {
            Result::Ok(t) => call_ensures(f, (state, t), res),
            Result::Err(e) => res == Result::<U, E>::Err(e),
        },
{
    match r {
        Result::Ok(t) => f(state, t),
        Result::Err(e) => Result::Err(e),
    }
}

/// Intercept an error: the handler inspects it and either re-raises it or
/// substitutes an outcome. A success passes through untouched.
pub fn recover<T, E, F: FnOnce(E) -> Result<T, E>>(r: Result<T, E>, f: F) -> (res: Result<T, E>)
    requires
        r matches Result::Err(e) ==> call_requires(f, (e,)),
    ensures
        match r {
            Result::Ok(t) => res == Result::<T, E>::Ok(t),
            Result::Err(e) => call_ensures(f, (e,), res),
        },
{
    match r {
        Result::Ok(t) => Result::Ok(t),
        Result::Err(e) => f(e),
    }
}

} // verus!
