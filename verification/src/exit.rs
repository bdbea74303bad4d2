//! The coordinated shutdown signal shared by every subsystem.
//!
//! The signal is a boolean flag guarded by a mutex, paired with a condition
//! variable so that waiters can block until shutdown is requested. Its state
//! transition is one-directional: once the flag reads "exiting" nothing ever
//! resets it to "running" — the only mutating operation, [`ExitSignal::signal_exit`],
//! writes the "exiting" value. [`ExitState`] is the abstract model of that
//! transition, on which the one-directionality is proved.

use vstd::prelude::*;
use crate::shared::share_arc;

verus! {

/// The abstract state of the shutdown signal.
#[derive(Clone, Copy, PartialEq, Eq, Structural, Debug)]
pub enum ExitState {
    /// The process runs; no shutdown was requested.
    Running,
    /// A shutdown was requested.
    Exiting,
}

impl ExitState {
    /// The state after a shutdown request: signaling always leads to `Exiting`.
    pub open spec fn signaled(self) -> ExitState {
        ExitState::Exiting
    }
}

/// Signaling exactly once moves any state to `Exiting`, and signaling a
/// second time is a no-op: the transition is one-directional and idempotent.
pub proof fn lemma_signal_one_directional(s: ExitState)
    ensures
        s.signaled() == ExitState::Exiting,
        s.signaled().signaled() == s.signaled(),
{
}

#[verifier::external_type_specification]
#[verifier::external_body]
pub struct ExRawMutex(parking_lot::RawMutex);

#[verifier::external_type_specification]
#[verifier::external_body]
#[verifier::reject_recursive_types(R)]
#[verifier::reject_recursive_types(T)]
pub struct ExMutex<R, T: ?Sized>(parking_lot::lock_api::Mutex<R, T>);

#[verifier::external_type_specification]
#[verifier::external_body]
pub struct ExCondvar(parking_lot::Condvar);

/// The shared cell behind every handle to one signal: the guarded flag and
/// the condition variable its waiters block on.
struct SignalCell {
    flag: parking_lot::Mutex<bool>,
    waiters: parking_lot::Condvar,
}

/// Relies on `lock_api::Mutex::new`: the returned mutex is unlocked and
/// guards the given flag value.
#[verifier::external_body]
fn new_flag_mutex(v: bool) -> parking_lot::Mutex<bool> {
    parking_lot::Mutex::new(v)
}

/// Relies on `parking_lot::Condvar::new`: the returned condition variable
/// has no waiters.
#[verifier::external_body]
fn new_condvar() -> parking_lot::Condvar {
    parking_lot::Condvar::new()
}

/// Relies on `lock_api::Mutex::lock`, the store through its guard, and
/// `parking_lot::Condvar::notify_all`: after the call the guarded flag holds
/// `true` and every thread blocked on the condition variable is woken. The
/// guard cannot cross a verified boundary, so the three steps stand in one
/// body. Nothing is stated of the flag afterwards: other holders of the cell
/// read it concurrently.
#[verifier::external_body]
fn set_flag_and_notify(m: &parking_lot::Mutex<bool>, cv: &parking_lot::Condvar) {
    let mut guard = m.lock();
    *guard = true;
    cv.notify_all();
}

/// Relies on `lock_api::Mutex::lock` and the read through its guard: returns
/// the value the guarded flag held at some instant during the call. Nothing
/// more can be stated: other holders of the cell may write it concurrently.
#[verifier::external_body]
fn read_flag(m: &parking_lot::Mutex<bool>) -> bool {
    *m.lock()
}

/// Relies on `lock_api::Mutex::lock` and `parking_lot::Condvar::wait`:
/// returns only once the guarded flag reads `true`, returning immediately if
/// it already does, and blocking on the condition variable otherwise. The
/// wait must hold the guard, so the loop stands in this one body.
#[verifier::external_body]
fn wait_for_flag(m: &parking_lot::Mutex<bool>, cv: &parking_lot::Condvar) {
    let mut guard = m.lock();
    while !*guard {
        cv.wait(&mut guard);
    }
}

/// A handle to one shared shutdown signal.
///
/// Every subsystem started during assembly receives its own handle to the
/// same underlying cell, and observes [`ExitSignal::is_exiting`] or blocks on
/// [`ExitSignal::wait_for_exit`] as its termination condition. The cell is
/// dropped only when the last handle is.
pub struct ExitSignal {
    cell: std::sync::Arc<SignalCell>,
}

impl ExitSignal {
    /// A fresh signal in the "running" state.
    pub fn new() -> ExitSignal {
        ExitSignal {
            cell: std::sync::Arc::new(SignalCell { flag: new_flag_mutex(false), waiters: new_condvar() }),
        }
    }

    /// Another handle to the same signal, handed to each subsystem at
    /// construction.
    pub fn handle(&self) -> (r: ExitSignal)
        ensures
            r == *self,
    {
        ExitSignal { cell: share_arc(&self.cell) }
    }

    /// Request shutdown: set the flag to "exiting" and wake every waiter.
    /// The transition is one-directional — no operation resets the flag —
    /// so signaling again is a no-op.
    pub fn signal_exit(&self) {
        set_flag_and_notify(&self.cell.flag, &self.cell.waiters);
    }

    /// Whether shutdown has been requested, as of some instant during the
    /// call.
    pub fn is_exiting(&self) -> bool {
        read_flag(&self.cell.flag)
    }

    /// Block until shutdown is requested, returning immediately if it
    /// already was.
    pub fn wait_for_exit(&self) {
        wait_for_flag(&self.cell.flag, &self.cell.waiters);
    }
}

} // verus!
