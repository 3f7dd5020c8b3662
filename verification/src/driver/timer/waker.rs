//! The resumers that suspended callers leave with the timer.

use vstd::prelude::*;
use core::task::Waker;

verus! {

/// `core::task::Waker`: the handle by which an executor is told to poll a
/// task again. The timer stores and hands on such handles without looking
/// inside them.
#[verifier::external_type_specification]
#[verifier::external_body]
pub struct ExWaker(Waker);

/// `Waker::wake`: tells the executor to poll the task of `waker` again.
/// Nothing is claimed of it.
#[verifier::external_body]
pub(crate) fn wake(waker: Waker) {
    waker.wake()
}

} // verus!
