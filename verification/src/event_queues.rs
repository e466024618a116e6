//! The event queues of a processing call and the checked, exclusive access to them.
//!
//! The two queues live in cells that hand out at most one mutable borrow at a time and check
//! this when the borrow is asked for. Nothing in this module waits: a cell that is already
//! borrowed answers with an error at once.
//!
//! The cell and its guard come from the `atomic_refcell` crate. What this module states about
//! them is taken on trust from that crate's source; each such item says so.

use crate::events::NoteEvent;
use atomic_refcell::AtomicRefCell;
use atomic_refcell::AtomicRefMut;
use atomic_refcell::BorrowMutError;
use std::collections::VecDeque;
use vstd::prelude::*;

verus! {

/// `atomic_refcell::AtomicRefCell`, a cell whose borrows are counted at run time. Its contents
/// can change behind a shared reference, so only what it was made with has a name.
#[verifier::external_type_specification]
#[verifier::external_body]
#[verifier::reject_recursive_types(T)]
pub struct ExAtomicRefCell<T: ?Sized>(AtomicRefCell<T>);

/// `atomic_refcell::AtomicRefMut`, the guard of a mutable borrow. While it lives, it is the
/// only way to the cell's contents.
#[verifier::external_type_specification]
#[verifier::external_body]
#[verifier::reject_recursive_types(T)]
pub struct ExAtomicRefMut<'b, T: ?Sized + 'b>(AtomicRefMut<'b, T>);

/// `atomic_refcell::BorrowMutError`, the answer of a cell that is already borrowed.
#[verifier::external_type_specification]
#[verifier::external_body]
pub struct ExBorrowMutError(BorrowMutError);

/// The events of the queue that an event cell was made with, oldest first. What the cell
/// holds at a later time changes behind shared references, and nothing here speaks of it.
pub uninterp spec fn initial_events(cell: AtomicRefCell<VecDeque<NoteEvent>>) -> Seq<NoteEvent>;

/// `AtomicRefCell::try_borrow_mut` asks for the mutable borrow and returns an error, without
/// waiting or panicking, if the cell is borrowed already. Which of the two happens depends on
/// the cell's borrow count, so nothing is claimed about the result.
pub assume_specification<'a, T: ?Sized>[ AtomicRefCell::<T>::try_borrow_mut ](
    cell: &'a AtomicRefCell<T>,
) -> (borrow: Result<AtomicRefMut<'a, T>, BorrowMutError>)
;

/// The events that a guard over an event queue gives access to, oldest first.
pub uninterp spec fn borrowed_events(guard: AtomicRefMut<'_, VecDeque<NoteEvent>>) -> Seq<
    NoteEvent,
>;

/// `Deref::deref` of `AtomicRefMut`: a shared reference to the borrowed queue. The queue it
/// returns is the one the guard holds.
#[verifier::external_body]
pub(crate) fn deref_events<'a, 'b>(guard: &'a AtomicRefMut<'b, VecDeque<NoteEvent>>) -> (queue:
    &'a VecDeque<NoteEvent>)
    ensures
        queue@ == borrowed_events(*guard),
{
    &**guard
}

/// `DerefMut::deref_mut` of `AtomicRefMut`: a mutable reference to the borrowed queue. The
/// queue it returns is the one the guard holds, and what the caller leaves in it is what the
/// guard holds afterwards.
#[verifier::external_body]
pub(crate) fn deref_events_mut<'a, 'b>(
    guard: &'a mut AtomicRefMut<'b, VecDeque<NoteEvent>>,
) -> (queue: &'a mut VecDeque<NoteEvent>)
    ensures
        queue@ == borrowed_events(*old(guard)),
        borrowed_events(*final(guard)) == final(queue)@,
{
    &mut **guard
}

/// The input and output event queues of a plugin instance. A processing call borrows both for
/// its duration; between calls the host side fills the one and empties the other.
pub struct EventQueues {
    pub input_events: AtomicRefCell<VecDeque<NoteEvent>>,
    pub output_events: AtomicRefCell<VecDeque<NoteEvent>>,
}

impl EventQueues {
    /// Two cells, each made with an empty queue.
    pub fn new() -> (queues: Self)
        ensures
            initial_events(queues.input_events) == Seq::<NoteEvent>::empty(),
            initial_events(queues.output_events) == Seq::<NoteEvent>::empty(),
    {
        EventQueues {
            input_events: new_event_cell(VecDeque::new()),
            output_events: new_event_cell(VecDeque::new()),
        }
    }
}

/// `AtomicRefCell::new` puts a value into a fresh cell that nobody has borrowed. The cell it
/// returns was made with the queue it was given.
#[verifier::external_body]
fn new_event_cell(events: VecDeque<NoteEvent>) -> (cell: AtomicRefCell<VecDeque<NoteEvent>>)
    ensures
        initial_events(cell) == events@,
{
    AtomicRefCell::new(events)
}

} // verus!
