//! Trying an operation a second time.

use vstd::prelude::*;

verus! {

/// The result of an operation that is tried again once if it fails: the first
/// outcome if that is a success, the second outcome otherwise.
pub open spec fn retry_result<T, E>(first: Result<T, E>, second: Result<T, E>) -> Result<T, E> {
    if first is Ok {
        first
    } else {
        second
    }
}

/// Runs `f`, and runs it once more if it failed. The second outcome is
/// returned as it is, success or failure.
pub fn retry<T, E>(mut f: impl FnMut() -> Result<T, E>) -> (r: Result<T, E>)
    requires
        call_requires(f, ()),
    ensures
        exists|first: Result<T, E>, second: Result<T, E>|
            call_ensures(f, (), first) && (first is Err ==> call_ensures(f, (), second)) && r
                == retry_result(first, second),
{
    let first = f();
    if first.is_ok() {
        assert(first == retry_result(first, first));
        first
    } else {
        let second = f();
        assert(second == retry_result(first, second));
        second
    }
}

} // verus!
