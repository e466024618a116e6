//! What holds of the contexts over whole sequences of calls, stated over the same views and
//! spec functions as the contracts of the calls themselves.

use crate::events::HostRequest;
use crate::events::NoteEvent;
use crate::events::OutputParamEvent;
use crate::gesture::gesture_state;
use crate::gesture::GestureState;
use crate::gui_context::begin_outcome;
use crate::gui_context::end_outcome;
use crate::gui_context::set_outcome;
use crate::gui_context::set_value_event;
use crate::gui_context::unknown_outcome;
use crate::gui_context::Delivery;
use crate::init_context::flushed;
use crate::params::ParamPtr;
use crate::queue::after_take;
use crate::queue::offered;
use crate::queue::oldest;
use crate::wrapper::WrapperView;
use vstd::prelude::*;

verus! {

/// The pending latency of an initialization context after `set_latency_samples` has been
/// called with each value of `calls` in turn, starting from `pending`.
pub open spec fn pending_after(pending: Option<u32>, calls: Seq<u32>) -> Option<u32>
    decreases calls.len(),
{
    if calls.len() == 0 {
        pending
    } else {
        pending_after(Some(calls.first()), calls.drop_first())
    }
}

/// After any run of latency changes, the last one is pending; after none, what was pending
/// before still is.
pub proof fn law_last_latency_is_pending(pending: Option<u32>, calls: Seq<u32>)
    ensures
        pending_after(pending, calls) == if calls.len() == 0 {
            pending
        } else {
            Some(calls.last())
        },
    decreases calls.len(),
{
    if calls.len() > 0 {
        let rest = calls.drop_first();
        law_last_latency_is_pending(Some(calls.first()), rest);
        if rest.len() > 0 {
            assert(rest.last() == calls.last());
        }
    }
}

/// However often a latency is set on a fresh initialization context, closing the context
/// owes the host exactly one latency change, with the value set last, and changes nothing
/// else. If no latency was set, closing the context changes nothing at all.
pub proof fn law_init_context_flushes_last_latency_once<T, F>(
    wrapper: WrapperView<T, F>,
    calls: Seq<u32>,
)
    ensures
        flushed(wrapper, pending_after(None, calls)) == if calls.len() == 0 {
            wrapper
        } else {
            wrapper.with_host_request(HostRequest::LatencyChanged { samples: calls.last() })
        },
{
    law_last_latency_is_pending(None, calls);
}

/// The output events of a processing context after `send_event` has been called with each
/// event of `sent` in turn, starting from `queue`.
pub open spec fn after_sends(queue: Seq<NoteEvent>, sent: Seq<NoteEvent>) -> Seq<NoteEvent>
    decreases sent.len(),
{
    if sent.len() == 0 {
        queue
    } else {
        after_sends(queue.push(sent.first()), sent.drop_first())
    }
}

/// What `count` calls of `next_event` in a row return, starting from the input events
/// `queue`.
pub open spec fn reads(queue: Seq<NoteEvent>, count: nat) -> Seq<Option<NoteEvent>>
    decreases count,
{
    if count == 0 {
        Seq::empty()
    } else {
        seq![oldest(queue)] + reads(after_take(queue), (count - 1) as nat)
    }
}

/// The input events that are left after `count` calls of `next_event`.
pub open spec fn after_reads(queue: Seq<NoteEvent>, count: nat) -> Seq<NoteEvent>
    decreases count,
{
    if count == 0 {
        queue
    } else {
        after_reads(after_take(queue), (count - 1) as nat)
    }
}

/// Sending keeps the order: after any run of sends the output events are what they were,
/// followed by the events sent, in the order in which they were sent.
pub proof fn law_sends_keep_order(queue: Seq<NoteEvent>, sent: Seq<NoteEvent>)
    ensures
        after_sends(queue, sent) == queue + sent,
    decreases sent.len(),
{
    if sent.len() == 0 {
        assert(queue + sent =~= queue);
    } else {
        law_sends_keep_order(queue.push(sent.first()), sent.drop_first());
        assert(queue.push(sent.first()) + sent.drop_first() =~= queue + sent);
    }
}

/// Reading is first in, first out: the i-th of a run of reads returns the i-th event of the
/// queue, or nothing once the queue is used up, and the events not yet read stay behind in
/// their order.
pub proof fn law_reads_are_first_in_first_out(queue: Seq<NoteEvent>, count: nat)
    ensures
        reads(queue, count).len() == count,
        forall|i: int|
            0 <= i < count ==> #[trigger] reads(queue, count)[i] == if i < queue.len() {
                Some(queue[i])
            } else {
                None
            },
        after_reads(queue, count) == if count <= queue.len() {
            queue.skip(count as int)
        } else {
            Seq::empty()
        },
    decreases count,
{
    if count == 0 {
        assert(queue.skip(0) =~= queue);
    } else {
        let rest = after_take(queue);
        let fewer = (count - 1) as nat;
        law_reads_are_first_in_first_out(rest, fewer);
        assert forall|i: int| 0 <= i < count implies #[trigger] reads(queue, count)[i] == if i
            < queue.len() {
            Some(queue[i])
        } else {
            None
        } by {
            if i > 0 {
                assert(reads(queue, count)[i] == reads(rest, fewer)[i - 1]);
            }
        }
        if count <= queue.len() {
            assert(rest.skip(fewer as int) =~= queue.skip(count as int));
        } else if queue.len() > 0 {
        } else {
            assert(rest =~= Seq::<NoteEvent>::empty());
            if fewer <= rest.len() {
                assert(rest.skip(fewer as int) =~= Seq::<NoteEvent>::empty());
            }
        }
    }
}

/// Events sent to an empty queue and read back from that queue come out one by one in the
/// order in which they were sent, and the queue is empty again after the last.
pub proof fn law_sent_events_are_read_in_order(sent: Seq<NoteEvent>)
    ensures
        reads(after_sends(Seq::empty(), sent), sent.len()) == sent.map_values(
            |event: NoteEvent| Some(event),
        ),
        after_reads(after_sends(Seq::empty(), sent), sent.len()) == Seq::<NoteEvent>::empty(),
{
    let queue = after_sends(Seq::empty(), sent);
    law_sends_keep_order(Seq::empty(), sent);
    assert(Seq::<NoteEvent>::empty() + sent =~= sent);
    law_reads_are_first_in_first_out(queue, sent.len());
    assert(reads(queue, sent.len()) =~= sent.map_values(|event: NoteEvent| Some(event)));
    assert(queue.skip(sent.len() as int) =~= Seq::<NoteEvent>::empty());
}

/// A queue that is within its capacity stays within it whatever is offered, and a full queue
/// is left exactly as it was: what it held stays, in its order, and the new item is lost.
pub proof fn law_full_queue_drops_newest<T>(items: Seq<T>, capacity: nat, item: T)
    ensures
        items.len() <= capacity ==> offered(items, capacity, item).len() <= capacity,
        items.len() >= capacity ==> offered(items, capacity, item) == items,
        items.len() < capacity ==> offered(items, capacity, item) == items.push(item),
{
}

/// No call of a context makes a queue outgrow its capacity: shared state that is within
/// capacity is still within capacity after an event or a task is offered, a notification is
/// noted for the host, a gesture call of any kind is made, or an initialization context is
/// closed.
pub proof fn law_queues_stay_within_capacity<T, F>(
    wrapper: WrapperView<T, F>,
    checker: Option<Map<u32, GestureState>>,
    param: ParamPtr,
    normalized_bits: u32,
    event: OutputParamEvent,
    task: T,
    request: HostRequest,
    pending: Option<u32>,
)
    requires
        wrapper.within_capacity(),
    ensures
        wrapper.with_param_event(event).within_capacity(),
        wrapper.with_background_task(task).within_capacity(),
        wrapper.with_gui_task(task).within_capacity(),
        wrapper.with_host_request(request).within_capacity(),
        wrapper.with_resize_request().within_capacity(),
        flushed(wrapper, pending).within_capacity(),
        begin_outcome(wrapper, checker, param).wrapper.within_capacity(),
        set_outcome(wrapper, checker, param, normalized_bits).wrapper.within_capacity(),
        end_outcome(wrapper, checker, param).wrapper.within_capacity(),
{
}

/// With the outbox at capacity, each of the three gesture calls leaves the shared state,
/// outbox included, exactly as it was, and reports the loss.
pub proof fn law_full_outbox_is_unchanged<T, F>(
    wrapper: WrapperView<T, F>,
    checker: Option<Map<u32, GestureState>>,
    param: ParamPtr,
    normalized_bits: u32,
)
    requires
        wrapper.param_events.len() == wrapper.param_event_capacity,
        wrapper.resolve(param) is Some,
    ensures
        begin_outcome(wrapper, checker, param).wrapper == wrapper,
        set_outcome(wrapper, checker, param, normalized_bits).wrapper == wrapper,
        end_outcome(wrapper, checker, param).wrapper == wrapper,
        begin_outcome(wrapper, checker, param).report.delivery == Delivery::QueueFull,
        set_outcome(wrapper, checker, param, normalized_bits).report.delivery
            == Delivery::QueueFull,
        end_outcome(wrapper, checker, param).report.delivery == Delivery::QueueFull,
{
}

/// With a task queue at capacity, a task offered to it is lost and the shared state is
/// exactly as it was. With room, the task goes to the back of its queue and nothing else
/// changes.
pub proof fn law_full_task_queue_drops_task<T, F>(wrapper: WrapperView<T, F>, task: T)
    ensures
        !wrapper.has_background_task_room() ==> wrapper.with_background_task(task) == wrapper,
        !wrapper.has_gui_task_room() ==> wrapper.with_gui_task(task) == wrapper,
        wrapper.has_background_task_room() ==> wrapper.with_background_task(task) == (
        WrapperView { background_tasks: wrapper.background_tasks.push(task), ..wrapper }),
        wrapper.has_gui_task_room() ==> wrapper.with_gui_task(task) == (WrapperView {
            gui_tasks: wrapper.gui_tasks.push(task),
            ..wrapper
        }),
{
}

/// A whole gesture on a known, idle parameter, with room in the outbox: begin, set and end
/// put exactly three events in the outbox, `BeginGesture`, `SetValue` and `EndGesture` in that
/// order, behind what was there; none of the three calls reports anything; and the parameter
/// is idle again at the end.
pub proof fn law_gesture_sends_begin_set_end<T, F>(
    wrapper: WrapperView<T, F>,
    checker: Option<Map<u32, GestureState>>,
    param: ParamPtr,
    normalized_bits: u32,
)
    requires
        wrapper.resolve(param) is Some,
        wrapper.param_events.len() + 3 <= wrapper.param_event_capacity,
        checker matches Some(table) ==> gesture_state(table, wrapper.resolve(param)->0.id)
            == GestureState::Idle,
    ensures
        ({
            let info = wrapper.resolve(param)->0;
            let begun = begin_outcome(wrapper, checker, param);
            let set = set_outcome(begun.wrapper, begun.checker, param, normalized_bits);
            let ended = end_outcome(set.wrapper, set.checker, param);
            &&& ended.wrapper == (WrapperView {
                param_events: wrapper.param_events + seq![
                    OutputParamEvent::BeginGesture { param_hash: info.hash },
                    set_value_event(info, normalized_bits),
                    OutputParamEvent::EndGesture { param_hash: info.hash },
                ],
                ..wrapper
            })
            &&& begun.report.delivery == Delivery::Queued && !begun.report.gesture_violation
            &&& set.report.delivery == Delivery::Queued && !set.report.gesture_violation
            &&& ended.report.delivery == Delivery::Queued && !ended.report.gesture_violation
            &&& (checker is None <==> ended.checker is None)
            &&& ended.checker matches Some(table) ==> gesture_state(table, info.id)
                == GestureState::Idle
        }),
{
    let info = wrapper.resolve(param)->0;
    let begun = begin_outcome(wrapper, checker, param);
    let set = set_outcome(begun.wrapper, begun.checker, param, normalized_bits);
    let ended = end_outcome(set.wrapper, set.checker, param);
    assert(begun.wrapper.resolve(param) == Some(info));
    assert(set.wrapper.resolve(param) == Some(info));
    assert(ended.wrapper.param_events =~= wrapper.param_events + seq![
        OutputParamEvent::BeginGesture { param_hash: info.hash },
        set_value_event(info, normalized_bits),
        OutputParamEvent::EndGesture { param_hash: info.hash },
    ]);
}

/// A value set on a known parameter that is not in a gesture is flagged where gesture checks
/// are on, and is offered to the outbox exactly as it would be inside a gesture: what the
/// call does to the shared state does not depend on the gesture table.
pub proof fn law_set_without_begin_is_sent_and_flagged<T, F>(
    wrapper: WrapperView<T, F>,
    table: Map<u32, GestureState>,
    other: Option<Map<u32, GestureState>>,
    param: ParamPtr,
    normalized_bits: u32,
)
    requires
        wrapper.resolve(param) is Some,
        gesture_state(table, wrapper.resolve(param)->0.id) == GestureState::Idle,
    ensures
        set_outcome(wrapper, Some(table), param, normalized_bits).report.gesture_violation,
        set_outcome(wrapper, Some(table), param, normalized_bits).wrapper
            == wrapper.with_param_event(
            set_value_event(wrapper.resolve(param)->0, normalized_bits),
        ),
        set_outcome(wrapper, Some(table), param, normalized_bits).wrapper == set_outcome(
            wrapper,
            other,
            param,
            normalized_bits,
        ).wrapper,
        wrapper.has_param_event_room() ==> set_outcome(
            wrapper,
            Some(table),
            param,
            normalized_bits,
        ).wrapper.param_events == wrapper.param_events.push(
            set_value_event(wrapper.resolve(param)->0, normalized_bits),
        ),
{
}

/// A handle that is not known makes each of the three gesture calls change nothing, neither
/// the shared state nor the gesture table, and report the unknown parameter and nothing else.
pub proof fn law_unknown_parameter_changes_nothing<T, F>(
    wrapper: WrapperView<T, F>,
    checker: Option<Map<u32, GestureState>>,
    param: ParamPtr,
    normalized_bits: u32,
)
    requires
        wrapper.resolve(param) is None,
    ensures
        begin_outcome(wrapper, checker, param) == unknown_outcome(wrapper, checker),
        set_outcome(wrapper, checker, param, normalized_bits) == unknown_outcome(wrapper, checker),
        end_outcome(wrapper, checker, param) == unknown_outcome(wrapper, checker),
        unknown_outcome(wrapper, checker).wrapper == wrapper,
        unknown_outcome(wrapper, checker).checker == checker,
        unknown_outcome(wrapper, checker).report.delivery == Delivery::UnknownParameter,
        !unknown_outcome(wrapper, checker).report.gesture_violation,
{
}

} // verus!
