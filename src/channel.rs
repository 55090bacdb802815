//! The consuming end of a one-slot channel and the scheduler's wake handle,
//! as the deferred task sees them.
use vstd::prelude::*;

verus! {

/// The receiving end of a `crossbeam_channel` channel.
#[verifier::external_type_specification]
#[verifier::external_body]
#[verifier::reject_recursive_types(T)]
pub struct ExReceiver<T>(crossbeam_channel::Receiver<T>);

/// The handle a cooperative scheduler hands in so that it is told when to poll again.
#[verifier::external_type_specification]
#[verifier::external_body]
pub struct ExWaker(std::task::Waker);

/// Why no value could be taken from a task.
#[derive(PartialEq, Eq, Structural, Clone, Copy, Debug)]
pub enum RecvFailure {
    /// Nothing has arrived yet; asking again later may succeed.
    Empty,
    /// Nothing will ever arrive: the worker is gone without sending, or its
    /// one value was already taken.
    Disconnected,
}

/// Relies on `crossbeam_channel::Receiver::try_recv`: it never blocks, and its two
/// errors map one to one. What it returns depends on the worker's timing.
#[verifier::external_body]
pub(crate) fn channel_try_recv<T>(rx: &crossbeam_channel::Receiver<T>) -> (r: Result<T, RecvFailure>) {
    match rx.try_recv() {
        Ok(v) => Ok(v),
        Err(crossbeam_channel::TryRecvError::Empty) => Err(RecvFailure::Empty),
        Err(crossbeam_channel::TryRecvError::Disconnected) => Err(RecvFailure::Disconnected),
    }
}

/// Relies on `crossbeam_channel::Receiver::recv`: it blocks until a value arrives,
/// and fails only once the channel is empty and disconnected.
#[verifier::external_body]
pub(crate) fn channel_recv<T>(rx: &crossbeam_channel::Receiver<T>) -> (r: Result<T, RecvFailure>)
    ensures
        r matches Err(e) ==> e == RecvFailure::Disconnected,
{
    match rx.recv() {
        Ok(v) => Ok(v),
        Err(crossbeam_channel::RecvError) => Err(RecvFailure::Disconnected),
    }
}

} // verus!
