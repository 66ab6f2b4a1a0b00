//! What this crate takes from the standard library on trust: the types that
//! its streams hand through, of whose contents nothing is known here, and
//! the conversion of a value into its own type.

use vstd::prelude::*;

verus! {

/// `std::io::Error`, the error of a failed I/O call.
#[verifier::external_type_specification]
#[verifier::external_body]
pub struct ExIoError(std::io::Error);

/// `std::task::Context`, which carries the waker of the task that polls.
#[verifier::external_type_specification]
#[verifier::external_body]
pub struct ExContext<'a>(std::task::Context<'a>);

/// `std::task::Poll`, the outcome of one poll: ready with a value, or pending.
#[verifier::external_type_specification]
#[verifier::external_body]
#[verifier::reject_recursive_types(T)]
pub struct ExPoll<T>(std::task::Poll<T>);

/// `From<T> for T`: converting a value into its own type gives the value back.
pub assume_specification<V>[ <V as From<V>>::from ](t: V) -> (r: V)
    ensures
        r == t,
;

} // verus!
