//! Racing a suspending operation against a shutdown signal.

use std::task::Poll;
use vstd::prelude::*;
use vstd::string::StringExecFns;

verus! {

/// `std::task::Poll`, with its two variants.
#[verifier::external_type_specification]
#[verifier::reject_recursive_types(T)]
pub struct ExPoll<T>(std::task::Poll<T>);

/// The outcome of an operation that lost the race against shutdown.
#[derive(Clone, Copy, PartialEq, Eq, Debug, Structural)]
pub struct CancelledByShutdown;

impl CancelledByShutdown {
    /// The text of this outcome.
    pub fn message(&self) -> (text: String)
        ensures
            text@ == "A shutdown request caused this"@ + " task to be cancelled"@,
    {
        let mut text = "A shutdown request caused this".to_owned();
        text.append(" task to be cancelled");
        text
    }
}

/// What a poll of the raced operation gives, once the signal is known to
/// be pending.
pub open spec fn raced<T>(inner: Poll<T>) -> Poll<Result<T, CancelledByShutdown>> {
    match inner {
        Poll::Ready(value) => Poll::Ready(Ok(value)),
        Poll::Pending => Poll::Pending,
    }
}

/// One poll of an operation raced against a shutdown signal. The signal is
/// looked at first: once it has fired the race is lost, and the operation
/// is not polled at all. Otherwise the operation is polled once, and its
/// value, if it has one, wins.
pub fn poll<T, F: FnOnce() -> Poll<T>>(cancellation: Poll<()>, future: F) -> (outcome: Poll<
    Result<T, CancelledByShutdown>,
>)
    requires
        cancellation is Pending ==> call_requires(future, ()),
    ensures
        cancellation is Ready ==> outcome == Poll::Ready(
            Err::<T, CancelledByShutdown>(CancelledByShutdown),
        ),
        cancellation is Pending ==> exists|inner: Poll<T>|
            call_ensures(future, (), inner) && outcome == raced(inner),
{
    match cancellation {
        Poll::Ready(()) => Poll::Ready(Err(CancelledByShutdown)),
        Poll::Pending => {
            let inner = future();
            let ghost polled = inner;
            let outcome = match inner {
                Poll::Ready(value) => Poll::Ready(Ok(value)),
                Poll::Pending => Poll::Pending,
            };
            assert(call_ensures(future, (), polled) && outcome == raced(polled));
            outcome
        },
    }
}

} // verus!
