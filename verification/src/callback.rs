//! The bridge between one callback and one waiting task.
//!
//! A bridge is a slot that holds at most one thing: the handle of the task
//! that waits for a result, or the result that waits for its task. Each
//! operation looks at the slot and changes it in one step, so that under a
//! lock that lets one operation run at a time no wake-up is lost, whichever
//! of the two sides comes first.

use vstd::prelude::*;

verus! {

/// A use of a bridge that breaks its protocol of one result and one waiter.
#[derive(Clone, Copy, Debug, PartialEq, Eq, Structural)]
pub enum ContractViolation {
    /// A result arrived while the last one had not been taken.
    DoubleWake,
    /// A task came to wait while another was waiting.
    DoubleAwait,
}

/// What the slot of a bridge holds.
#[derive(Debug)]
pub enum WakerState<T, W> {
    /// Nothing: no result has arrived and nobody waits.
    Idle,
    /// The handle of the task that waits for the result.
    Waiting(W),
    /// The result, which no task has taken yet.
    Ready(T),
}

impl<T, W> WakerState<T, W> {
    /// The slot after a result arrives.
    pub open spec fn after_wake(self, result: T) -> WakerState<T, W> {
        match self {
            WakerState::Idle => WakerState::Ready(result),
            WakerState::Waiting(_) => WakerState::Ready(result),
            WakerState::Ready(held) => WakerState::Ready(held),
        }
    }

    /// What the arrival of a result answers: the handle of the task to
    /// release, if one waits, or the violation.
    pub open spec fn wake_answer(self) -> Result<Option<W>, ContractViolation> {
        match self {
            WakerState::Idle => Ok(None),
            WakerState::Waiting(waker) => Ok(Some(waker)),
            WakerState::Ready(_) => Err(ContractViolation::DoubleWake),
        }
    }

    /// The slot after a task asks for the result.
    pub open spec fn after_wait(self, waker: W) -> WakerState<T, W> {
        match self {
            WakerState::Idle => WakerState::Waiting(waker),
            WakerState::Waiting(first) => WakerState::Waiting(first),
            WakerState::Ready(_) => WakerState::Idle,
        }
    }

    /// What a task that asks for the result is answered: the result, if it
    /// has arrived, nothing yet, or the violation.
    pub open spec fn wait_answer(self) -> Result<Option<T>, ContractViolation> {
        match self {
            WakerState::Idle => Ok(None),
            WakerState::Waiting(_) => Err(ContractViolation::DoubleAwait),
            WakerState::Ready(result) => Ok(Some(result)),
        }
    }
}

/// A single-slot bridge that carries one result of type `T` from a callback
/// to the task that waits for it, which is known by a handle of type `W`.
pub struct AsyncWaker<T: Sync, W> {
    wakeup: WakerState<T, W>,
}

impl<T: Sync, W> View for AsyncWaker<T, W> {
    type V = WakerState<T, W>;

    closed spec fn view(&self) -> WakerState<T, W> {
        self.wakeup
    }
}

impl<T: Sync, W> AsyncWaker<T, W> {
    /// A bridge with an empty slot.
    pub fn new() -> (bridge: AsyncWaker<T, W>)
        ensures
            bridge@ == WakerState::<T, W>::Idle,
    {
        AsyncWaker { wakeup: WakerState::Idle }
    }

    /// Deposits a result.
    ///
    /// Where a task waits, its handle is handed back for the caller to
    /// release it; where none waits yet, the result is kept for the task that
    /// comes. A result that finds the last one still in the slot is a
    /// `DoubleWake`: it is dropped, and the slot keeps the result it held.
    pub fn wake(&mut self, result: T) -> (answer: Result<Option<W>, ContractViolation>)
        ensures
            answer == old(self)@.wake_answer(),
            final(self)@ == old(self)@.after_wake(result),
    {
        let mut current: WakerState<T, W> = WakerState::Idle;
        std::mem::swap(&mut self.wakeup, &mut current);
        match current {
            WakerState::Idle => {
                self.wakeup = WakerState::Ready(result);
                Ok(None)
            },
            WakerState::Waiting(waker) => {
                self.wakeup = WakerState::Ready(result);
                Ok(Some(waker))
            },
            WakerState::Ready(held) => {
                self.wakeup = WakerState::Ready(held);
                Err(ContractViolation::DoubleWake)
            },
        }
    }

    /// Asks for the result on behalf of the task with handle `waker`.
    ///
    /// A result that has arrived is handed over and the slot is empty again.
    /// Where none has arrived, the handle is kept in the slot and the task is
    /// to suspend until it is released. A task that finds another one waiting
    /// is a `DoubleAwait`: its handle is dropped, and the first task stays in
    /// the slot.
    pub fn wait_for(&mut self, waker: W) -> (answer: Result<Option<T>, ContractViolation>)
        ensures
            answer == old(self)@.wait_answer(),
            final(self)@ == old(self)@.after_wait(waker),
    {
        let mut current: WakerState<T, W> = WakerState::Idle;
        std::mem::swap(&mut self.wakeup, &mut current);
        match current {
            WakerState::Idle => {
                self.wakeup = WakerState::Waiting(waker);
                Ok(None)
            },
            WakerState::Ready(result) => {
                self.wakeup = WakerState::Idle;
                Ok(Some(result))
            },
            WakerState::Waiting(first) => {
                self.wakeup = WakerState::Waiting(first);
                Err(ContractViolation::DoubleAwait)
            },
        }
    }
}

/// A result that arrives before its task is kept, handed to the task when it
/// asks, and handed out once: the slot is empty afterwards, and a task that
/// asks again is told to wait.
pub proof fn lemma_wake_then_wait<T, W>(result: T, waker: W)
    ensures
        WakerState::<T, W>::Idle.wake_answer() == Ok::<Option<W>, ContractViolation>(None),
        WakerState::<T, W>::Idle.after_wake(result).wait_answer() == Ok::<
            Option<T>,
            ContractViolation,
        >(Some(result)),
        WakerState::<T, W>::Idle.after_wake(result).after_wait(waker) == WakerState::<T, W>::Idle,
        WakerState::<T, W>::Idle.after_wake(result).after_wait(waker).wait_answer() == Ok::<
            Option<T>,
            ContractViolation,
        >(None),
{
}

/// A task that asks before the result has arrived is told to wait; the result
/// then releases that task, is handed to it when it asks again, and is handed
/// out once.
pub proof fn lemma_wait_then_wake<T, W>(result: T, waker: W, again: W)
    ensures
        WakerState::<T, W>::Idle.wait_answer() == Ok::<Option<T>, ContractViolation>(None),
        WakerState::<T, W>::Idle.after_wait(waker).wake_answer() == Ok::<
            Option<W>,
            ContractViolation,
        >(Some(waker)),
        WakerState::<T, W>::Idle.after_wait(waker).after_wake(result).wait_answer() == Ok::<
            Option<T>,
            ContractViolation,
        >(Some(result)),
        WakerState::<T, W>::Idle.after_wait(waker).after_wake(result).after_wait(again)
            == WakerState::<T, W>::Idle,
{
}

/// A result that finds the last one still in the slot is rejected, and the
/// slot keeps what it held.
pub proof fn lemma_second_wake_is_rejected<T, W>(slot: WakerState<T, W>, result: T)
    requires
        slot is Ready,
    ensures
        slot.wake_answer() == Err::<Option<W>, ContractViolation>(ContractViolation::DoubleWake),
        slot.after_wake(result) == slot,
{
}

/// A task that finds another one waiting is rejected, and the slot keeps the
/// task that came first.
pub proof fn lemma_second_wait_is_rejected<T, W>(slot: WakerState<T, W>, waker: W)
    requires
        slot is Waiting,
    ensures
        slot.wait_answer() == Err::<Option<T>, ContractViolation>(ContractViolation::DoubleAwait),
        slot.after_wait(waker) == slot,
{
}

} // verus!
