use vstd::prelude::*;
use atomic_waker::AtomicWaker;
use core::task::{Context, Waker};

verus! {

/// `atomic_waker::AtomicWaker`: a slot for one waker that may be armed and
/// fired from different threads. Opaque here.
#[verifier::external_type_specification]
#[verifier::external_body]
pub struct ExAtomicWaker(atomic_waker::AtomicWaker);

/// `core::task::Waker`: the handle by which a parked task is woken. Opaque
/// here.
#[verifier::external_type_specification]
#[verifier::external_body]
pub struct ExWaker(core::task::Waker);

/// `core::task::Context`: what a poll is given; it carries the waker of the
/// polling task. Opaque here.
#[verifier::external_type_specification]
#[verifier::external_body]
pub struct ExContext<'a>(core::task::Context<'a>);

/// `AtomicWaker::new` makes a slot that holds no waker. The slot is opaque
/// here, so nothing is claimed of the value.
pub assume_specification[ atomic_waker::AtomicWaker::new ]() -> (slot: AtomicWaker);

/// `AtomicWaker::register` puts a clone of `waker` in the slot, in place of
/// any waker that was there. The slot changes behind a shared reference, so
/// nothing is claimed.
pub assume_specification[ atomic_waker::AtomicWaker::register ](
    slot: &AtomicWaker,
    waker: &Waker,
);

/// `AtomicWaker::wake` takes the waker out of the slot, if one is there, and
/// wakes it. The slot changes behind a shared reference, so nothing is
/// claimed.
pub assume_specification[ atomic_waker::AtomicWaker::wake ](slot: &AtomicWaker);

/// `Context::waker` hands out the waker of the task that is polling.
/// Nothing is claimed of it.
pub assume_specification<'a>[ core::task::Context::<'a>::waker ](cx: &Context<'a>) -> (w:
    &'a Waker);

/// The state that the watch shares with the notification callback: one slot
/// for the waker of the task that polled last.
pub struct Inner {
    waker: AtomicWaker,
}

impl Inner {
    /// A slot with no waker in it.
    pub fn new() -> (inner: Inner) {
        Inner { waker: AtomicWaker::new() }
    }

    /// Arms the slot with the waker of the polling task, in place of any
    /// waker armed before.
    pub fn register(&self, cx: &Context<'_>) {
        self.waker.register(cx.waker());
    }

    /// Wakes the task whose waker is in the slot, if any, and empties the
    /// slot.
    pub fn wake(&self) {
        self.waker.wake();
    }
}

/// What the operating system calls when either queue gained an entry: it
/// wakes whoever polled last. The queues themselves are read by the next
/// poll, not here.
pub fn callback(inner: &Inner) {
    inner.wake();
}

} // verus!
