//! Per-execution accounting: the call counter and the audit log.
//!
//! Every `execute` call owns exactly one session's worth of state — a tool
//! call counter bounded by the tool-call cap, and an append-only audit
//! log. Two interchangeable strategies carry that state:
//!
//! - [`Session`], plain owned mutable state for a single-owner cooperative
//!   host. Its operations are verified here: an exceeded increment never
//!   changes anything, an append never reorders, and the log can never
//!   grow past the cap.
//! - A shared strategy for hosts whose engine callbacks need `'static`
//!   shared handles: [`SharedVec`] and [`SharedCounter`] place the same
//!   state behind reference-counted locks. The lock cells themselves are
//!   trusted (a mutex has no Verus model), but the cap decision is not:
//!   both [`Session::try_increment`] and the shared-path
//!   [`increment_counter`] route it through the one verified
//!   [`cap_step`], so the two strategies run the same accounting rule.
//!
//! Within one execution the shared handles are only ever touched
//! sequentially — script evaluation is synchronous and each execution has
//! private handles — so the two strategies behave identically.

use std::sync::Arc;
use std::sync::Mutex;

use vstd::prelude::*;

use crate::types::ToolCall;

verus! {

/// The accounting rule itself: one call against a cap. Below the cap the
/// counter advances by exactly one; at or past it nothing changes and the
/// call is refused. Both strategies — [`Session::try_increment`] on owned
/// state and [`increment_counter`] on the shared counter — make their
/// decision through this one function.
pub fn cap_step(current: usize, max: usize) -> (r: Option<usize>)
    ensures
        current < max ==> r == Some((current + 1) as usize),
        current >= max ==> r is None,
{
    if current < max {
        Some(current + 1)
    } else {
        None
    }
}

/// Owned per-call accounting state for a single-owner cooperative host.
pub struct Session {
    /// The tool-call cap this session was created with.
    pub max_calls: usize,
    /// How many calls have been admitted so far.
    pub count: usize,
    /// The audit log, in invocation order.
    pub log: Vec<ToolCall>,
}

impl Session {
    /// The session invariant: the log never outgrows the admitted count,
    /// and the count never passes the cap.
    pub open spec fn inv(self) -> bool {
        self.log@.len() <= self.count <= self.max_calls
    }

    /// A fresh session: nothing admitted, nothing logged.
    pub fn new(max_calls: usize) -> (s: Self)
        ensures
            s.inv(),
            s.max_calls == max_calls,
            s.count == 0,
            s.log@ == Seq::<ToolCall>::empty(),
    {
        Session { max_calls, count: 0, log: Vec::new() }
    }

    /// Admits one more call if the cap allows it. An exceeded increment
    /// changes nothing — in particular it never touches the log.
    pub fn try_increment(&mut self) -> (ok: bool)
        requires
            old(self).inv(),
        ensures
            final(self).inv(),
            ok == (old(self).count < old(self).max_calls),
            ok ==> *final(self) == (Session { count: (old(self).count + 1) as usize, ..*old(self) }),
            !ok ==> *final(self) == *old(self),
    {
        match cap_step(self.count, self.max_calls) {
            Some(next) => {
                self.count = next;
                true
            },
            None => false,
        }
    }

    /// Appends one record for an admitted call. The existing log is kept
    /// unchanged, in order, and the record goes to the end.
    pub fn append(&mut self, record: ToolCall)
        requires
            old(self).inv(),
            old(self).log@.len() < old(self).count,
        ensures
            final(self).inv(),
            final(self).log@ == old(self).log@.push(record),
            final(self).count == old(self).count,
            final(self).max_calls == old(self).max_calls,
    {
        self.log.push(record);
    }
}

/// In every reachable session the audit log holds at most `max_calls`
/// records: the cap is never exceeded, whatever sequence of operations
/// led here.
pub proof fn law_audit_log_bounded(s: Session)
    requires
        s.inv(),
    ensures
        s.log@.len() <= s.max_calls,
{
}

/// Appending preserves invocation order: every record already logged
/// keeps its position, and the new record comes last. Together with
/// `append`'s contract this pins the log to exactly the call order.
pub proof fn law_audit_log_ordered(pre: Seq<ToolCall>, record: ToolCall)
    ensures
        pre.push(record).len() == pre.len() + 1,
        forall|i: int| 0 <= i < pre.len() ==> pre.push(record)[i] == pre[i],
        pre.push(record)[pre.len() as int] == record,
{
}

/// The trusted backing cell of a [`SharedVec`].
///
/// Relies on `std::sync::Arc` and `std::sync::Mutex`: the cell is opaque
/// to the verifier, and no contract is claimed for its contents — handles
/// alias one another, so reads through one handle may see writes made
/// through another.
#[verifier::external_body]
#[verifier::reject_recursive_types(T)]
pub struct LogCell<T>(Arc<Mutex<Vec<T>>>);

/// Relies on `Arc::new`, `Mutex::new` and `Vec::new`: a fresh cell
/// holding an empty vector.
#[verifier::external_body]
fn log_cell_new<T>() -> LogCell<T> {
    LogCell(Arc::new(Mutex::new(Vec::new())))
}

/// Relies on `Arc::clone`: a new handle to the same cell.
#[verifier::external_body]
fn log_cell_handle<T>(cell: &LogCell<T>) -> LogCell<T> {
    LogCell(Arc::clone(&cell.0))
}

/// Relies on `Mutex::lock` and `Vec::clone`: a snapshot of the cell's
/// current contents.
#[verifier::external_body]
fn log_cell_snapshot<T: Clone>(cell: &LogCell<T>) -> Vec<T> {
    cell.0.lock().unwrap().clone()
}

/// Relies on `Mutex::lock` and `Vec::push`: appends one item to the end
/// of the cell's vector.
#[verifier::external_body]
fn log_cell_push<T>(cell: &LogCell<T>, item: T) {
    cell.0.lock().unwrap().push(item);
}

/// The trusted backing cell of a [`SharedCounter`].
///
/// Relies on `std::sync::Arc` and `std::sync::Mutex`, like [`LogCell`].
#[verifier::external_body]
pub struct CounterCell(Arc<Mutex<usize>>);

/// Relies on `Arc::new` and `Mutex::new`: a fresh cell holding zero.
#[verifier::external_body]
fn counter_cell_new() -> CounterCell {
    CounterCell(Arc::new(Mutex::new(0)))
}

/// Relies on `Arc::clone`: a new handle to the same cell.
#[verifier::external_body]
fn counter_cell_handle(cell: &CounterCell) -> CounterCell {
    CounterCell(Arc::clone(&cell.0))
}

/// Relies on `Mutex::lock`: the cell's current value.
#[verifier::external_body]
fn counter_load(cell: &CounterCell) -> usize {
    *cell.0.lock().unwrap()
}

/// Relies on `Mutex::lock`: stores a value into the cell.
#[verifier::external_body]
fn counter_store(cell: &CounterCell, value: usize) {
    *cell.0.lock().unwrap() = value;
}

/// The audit log shared with engine callbacks: the shared strategy's half
/// of the log state. Nothing is claimed of its contents, because handles
/// alias one another.
#[verifier::reject_recursive_types(T)]
pub struct SharedVec<T>(LogCell<T>);

impl<T> Clone for SharedVec<T> {
    /// A new handle to the same shared log.
    fn clone(&self) -> Self {
        SharedVec(log_cell_handle(&self.0))
    }
}

/// The call counter shared with engine callbacks: the shared strategy's
/// half of the counter state.
pub struct SharedCounter(CounterCell);

impl Clone for SharedCounter {
    /// A new handle to the same shared counter.
    fn clone(&self) -> Self {
        SharedCounter(counter_cell_handle(&self.0))
    }
}

/// A fresh, empty shared audit log.
pub fn new_shared_vec<T>() -> SharedVec<T> {
    SharedVec(log_cell_new())
}

/// A fresh shared call counter starting at zero.
pub fn new_shared_counter() -> SharedCounter {
    SharedCounter(counter_cell_new())
}

/// Another handle to the same shared state.
pub fn clone_shared<T: Clone>(shared: &T) -> T {
    shared.clone()
}

/// A snapshot of the shared audit log's current contents.
pub fn lock_vec<T: Clone>(shared: &SharedVec<T>) -> Vec<T> {
    log_cell_snapshot(&shared.0)
}

/// Appends one record to the end of the shared audit log.
pub fn push_to_vec<T>(shared: &SharedVec<T>, item: T) {
    log_cell_push(&shared.0, item);
}

/// The guarded increment on the shared counter: admits one more call only
/// below the cap, by the same verified [`cap_step`] decision that
/// [`Session::try_increment`] makes on owned state. `Err` stores nothing,
/// so a refused call leaves the counter untouched. (The loaded value
/// itself comes through a trusted aliased cell, so no clause over the
/// cell's contents is soundly statable; the decision and the stored
/// successor are pinned by `cap_step`'s contract.)
pub fn increment_counter(shared: &SharedCounter, max: usize) -> Result<(), ()> {
    match cap_step(counter_load(&shared.0), max) {
        Some(next) => {
            counter_store(&shared.0, next);
            Ok(())
        },
        None => Err(()),
    }
}

} // verus!
