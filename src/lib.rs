//! A single-delivery handoff: one value, shared by any number of cloned
//! handles, handed to exactly one caller of `take`.

use std::sync::Arc;
use vstd::prelude::*;
use vstd::rwlock::{RwLock, RwLockPredicate};

verus! {

/// The invariant of the lock inside a handoff: the slot holds nothing, or
/// the one value the handoff was created with.
pub struct SlotPred<T> {
    pub value: T,
}

impl<T> RwLockPredicate<Option<T>> for SlotPred<T> {
    open spec fn inv(self, contents: Option<T>) -> bool {
        contents is None || contents == Some(self.value)
    }
}

/// A syncing type for sending a single object.
///
/// The handoff is created with a value and can then be cloned and sent
/// between threads. All clones share one slot: the first `take` on any of
/// them moves the value out, every other `take` gets `None`.
pub struct HandOff<T> {
    slot: Arc<Slot<T>>,
}

/// The storage that all clones of one handoff share.
struct Slot<T> {
    lock: RwLock<Option<T>, SlotPred<T>>,
}

impl<T> Drop for Slot<T> {
    /// vstd's `RwLock` keeps its contents in a cell that is never dropped, so
    /// when the last handle goes the slot is drained here and a value that
    /// nobody took is dropped with it. Nothing else can hold the lock then,
    /// since `drop` has the slot exclusively and `take` always releases it.
    #[verifier::external_body]
    fn drop(&mut self)
        opens_invariants none
        no_unwind
    {
        let (contents, handle) = self.lock.acquire_write();
        handle.release_write(None);
        drop(contents);
    }
}

/// What one `take` does to the slot while it holds the lock: the slot is
/// left empty, and what it held is handed out. The pair is
/// (contents afterwards, value handed out).
pub open spec fn take_step<T>(contents: Option<T>) -> (Option<T>, Option<T>) {
    (None, contents)
}

/// What `n` takes hand out, in the order the lock lets them in, starting
/// from a slot that holds `contents`.
pub open spec fn deliveries<T>(contents: Option<T>, n: nat) -> Seq<Option<T>>
    decreases n,
{
    if n == 0 {
        Seq::empty()
    } else {
        seq![take_step(contents).1] + deliveries(take_step(contents).0, (n - 1) as nat)
    }
}

/// The number of takes among `outcomes` that received a value.
pub open spec fn count_present<T>(outcomes: Seq<Option<T>>) -> nat
    decreases outcomes.len(),
{
    if outcomes.len() == 0 {
        0
    } else {
        (if outcomes[0] is Some {
            1nat
        } else {
            0nat
        }) + count_present(outcomes.drop_first())
    }
}

/// Once the slot is empty it stays empty: every further take, however many
/// come, receives nothing.
pub proof fn lemma_drained_stays_empty<T>(n: nat)
    ensures
        deliveries(None::<T>, n).len() == n,
        forall|i: int| 0 <= i < n ==> deliveries(None::<T>, n)[i] is None,
        count_present(deliveries(None::<T>, n)) == 0,
    decreases n,
{
    if n > 0 {
        let rest = deliveries(None::<T>, (n - 1) as nat);
        lemma_drained_stays_empty::<T>((n - 1) as nat);
        assert(deliveries(None::<T>, n).drop_first() =~= rest);
    }
}

/// However many takes race on one handoff, exactly one of them receives the
/// value: the one the lock lets in first. All the others receive nothing.
pub proof fn lemma_exactly_one_winner<T>(value: T, n: nat)
    requires
        n >= 1,
    ensures
        deliveries(Some(value), n).len() == n,
        deliveries(Some(value), n)[0] == Some(value),
        forall|i: int| 1 <= i < n ==> deliveries(Some(value), n)[i] is None,
        count_present(deliveries(Some(value), n)) == 1,
{
    let rest = deliveries(None::<T>, (n - 1) as nat);
    lemma_drained_stays_empty::<T>((n - 1) as nat);
    assert(deliveries(Some(value), n).drop_first() =~= rest);
}

/// Relies on `Arc::clone`: the new pointer refers to the same allocation,
/// so it derefs to the same value.
#[verifier::external_body]
fn share<T>(a: &Arc<T>) -> (r: Arc<T>)
    ensures
        r == *a,
{
    Arc::clone(a)
}

/// Empties the slot's contents and returns what they were.
fn take_from<T>(contents: &mut Option<T>) -> (r: Option<T>)
    ensures
        (*final(contents), r) == take_step(*old(contents)),
{
    contents.take()
}

impl<T> HandOff<T> {
    /// The shared slot that this handle refers to; two handles with the same
    /// slot are clones of one another.
    pub closed spec fn slot(&self) -> RwLock<Option<T>, SlotPred<T>> {
        self.slot.lock
    }

    /// The value the handoff was created with.
    pub open spec fn value(&self) -> T {
        self.slot().pred().value
    }

    /// Creates a new handoff holding `val`.
    pub fn new(val: T) -> (r: Self)
        ensures
            r.value() == val,
    {
        let ghost pred = SlotPred { value: val };
        let lock = RwLock::new(Some(val), Ghost(pred));
        HandOff { slot: Arc::new(Slot { lock }) }
    }

    /// Moves the value out of the handoff, consuming this handle.
    ///
    /// Among all clones of one handoff the first `take` gets the value and
    /// every later one gets `None`. Which handle comes first is up to the
    /// scheduler, so the contract states what holds either way. The lock
    /// cannot be poisoned, so `take` never reports a fault: a value that is
    /// not there is simply `None`.
    pub fn take(self) -> (r: Option<T>)
        ensures
            r is None || r == Some(self.value()),
    {
        let (mut contents, handle) = self.slot.lock.acquire_write();
        let got = take_from(&mut contents);
        handle.release_write(contents);
        got
    }
}

impl<T> Clone for HandOff<T> {
    /// Another handle to the same slot; the value itself is not copied.
    fn clone(&self) -> (r: Self)
        ensures
            r.slot() == self.slot(),
    {
        HandOff { slot: share(&self.slot) }
    }
}

} // verus!
