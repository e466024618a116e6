//! The context a plugin sees during one audio processing call.
//!
//! It holds the exclusive borrows of the input and output event queues for the length of the
//! call, and the transport as it stood when the call began. Events are read from the front of
//! the input queue and written to the back of the output queue. Tasks for other threads are
//! offered to bounded queues and lost when those are full, so that the audio thread never
//! waits.

use crate::event_queues::borrowed_events;
use crate::event_queues::deref_events;
use crate::event_queues::deref_events_mut;
use crate::event_queues::EventQueues;
use crate::events::HostRequest;
use crate::events::NoteEvent;
use crate::events::PluginApi;
use crate::events::Transport;
use crate::queue::after_take;
use crate::queue::oldest;
use crate::wrapper::Wrapper;
use atomic_refcell::AtomicRefMut;
use atomic_refcell::BorrowMutError;
use std::collections::VecDeque;
use vstd::prelude::*;

verus! {

/// Why a processing context could not be made.
#[derive(Clone, Copy, Debug, PartialEq, Eq, Structural)]
pub enum ProcessContextError {
    /// The input event queue is borrowed already.
    InputEventsBorrowed,
    /// The output event queue is borrowed already.
    OutputEventsBorrowed,
}

/// A processing context as a mathematical value.
pub struct ProcessContextView {
    /// The events still to be read, oldest first.
    pub input_events: Seq<NoteEvent>,
    /// The events written so far, oldest first.
    pub output_events: Seq<NoteEvent>,
    pub transport: Transport,
}

/// The context of one processing call.
pub struct WrapperProcessContext<'a> {
    input_events_guard: AtomicRefMut<'a, VecDeque<NoteEvent>>,
    output_events_guard: AtomicRefMut<'a, VecDeque<NoteEvent>>,
    transport: Transport,
}

impl<'a> View for WrapperProcessContext<'a> {
    type V = ProcessContextView;

    closed spec fn view(&self) -> ProcessContextView {
        ProcessContextView {
            input_events: borrowed_events(self.input_events_guard),
            output_events: borrowed_events(self.output_events_guard),
            transport: self.transport,
        }
    }
}

impl<'a> WrapperProcessContext<'a> {
    /// Makes a context of the answers of the two queue cells. Both borrows are needed; if
    /// the input queue was refused, that is the error, else if the output queue was.
    pub fn from_borrows(
        input_events: Result<AtomicRefMut<'a, VecDeque<NoteEvent>>, BorrowMutError>,
        output_events: Result<AtomicRefMut<'a, VecDeque<NoteEvent>>, BorrowMutError>,
        transport: Transport,
    ) -> (made: Result<Self, ProcessContextError>)
        ensures
            match (input_events, output_events) {
                (Ok(input), Ok(output)) => made matches Ok(context) && context@ == (
                ProcessContextView {
                    input_events: borrowed_events(input),
                    output_events: borrowed_events(output),
                    transport,
                }),
                (Err(_), _) => made == Err::<Self, _>(ProcessContextError::InputEventsBorrowed),
                (Ok(_), Err(_)) => made == Err::<Self, _>(
                    ProcessContextError::OutputEventsBorrowed,
                ),
            },
    {
        match input_events {
            Ok(input_events_guard) => match output_events {
                Ok(output_events_guard) => Ok(
                    WrapperProcessContext { input_events_guard, output_events_guard, transport },
                ),
                Err(_) => Err(ProcessContextError::OutputEventsBorrowed),
            },
            Err(_) => Err(ProcessContextError::InputEventsBorrowed),
        }
    }

    pub fn plugin_api(&self) -> (api: PluginApi)
        ensures
            api == PluginApi::Clap,
    {
        PluginApi::Clap
    }

    /// Offers `task` to the background queue without waiting. Returns whether it was taken;
    /// a full queue keeps what it holds and the task is lost.
    pub fn execute_background<T, F: Fn(T)>(
        &self,
        wrapper: &mut Wrapper<T, F>,
        task: T,
    ) -> (posted: bool)
        ensures
            posted == old(wrapper)@.has_background_task_room(),
            final(wrapper)@ == old(wrapper)@.with_background_task(task),
    {
        wrapper.schedule_background(task)
    }

    /// Offers `task` to the GUI queue without waiting. Returns whether it was taken; a full
    /// queue keeps what it holds and the task is lost.
    pub fn execute_gui<T, F: Fn(T)>(&self, wrapper: &mut Wrapper<T, F>, task: T) -> (posted: bool)
        ensures
            posted == old(wrapper)@.has_gui_task_room(),
            final(wrapper)@ == old(wrapper)@.with_gui_task(task),
    {
        wrapper.schedule_gui(task)
    }

    /// The transport as it stood when the call began.
    pub fn transport(&self) -> (transport: &Transport)
        ensures
            *transport == self@.transport,
    {
        &self.transport
    }

    /// Takes the earliest pending input event, if there is one.
    pub fn next_event(&mut self) -> (event: Option<NoteEvent>)
        ensures
            event == oldest(old(self)@.input_events),
            final(self)@ == (ProcessContextView {
                input_events: after_take(old(self)@.input_events),
                ..old(self)@
            }),
    {
        deref_events_mut(&mut self.input_events_guard).pop_front()
    }

    /// The earliest pending input event, if there is one. It stays in the queue.
    pub fn peek_event(&self) -> (event: Option<&NoteEvent>)
        ensures
            event == match oldest(self@.input_events) {
                Some(first) => Some(&first),
                None => None,
            },
    {
        let queue = deref_events(&self.input_events_guard);
        if queue.len() > 0 {
            Some(&queue[0])
        } else {
            None
        }
    }

    /// Appends `event` to the output events.
    pub fn send_event(&mut self, event: NoteEvent)
        ensures
            final(self)@ == (ProcessContextView {
                output_events: old(self)@.output_events.push(event),
                ..old(self)@
            }),
    {
        deref_events_mut(&mut self.output_events_guard).push_back(event);
    }

    /// Passes the new latency on to the shared state at once.
    pub fn set_latency_samples<T, F: Fn(T)>(&self, wrapper: &mut Wrapper<T, F>, samples: u32)
        ensures
            final(wrapper)@ == old(wrapper)@.with_host_request(
                HostRequest::LatencyChanged { samples },
            ),
    {
        wrapper.set_latency_samples(samples)
    }

    /// Passes the new voice capacity on to the shared state at once.
    pub fn set_current_voice_capacity<T, F: Fn(T)>(
        &self,
        wrapper: &mut Wrapper<T, F>,
        capacity: u32,
    )
        ensures
            final(wrapper)@ == old(wrapper)@.with_host_request(
                HostRequest::VoiceCapacityChanged { capacity },
            ),
    {
        wrapper.set_current_voice_capacity(capacity)
    }
}

impl EventQueues {
    /// Borrows both event queues for a processing call that starts with the transport
    /// `transport`. The borrows are checked: while a context made here lives, a second
    /// call is refused with an error instead of sharing the queues.
    pub fn make_process_context(&self, transport: Transport) -> (made: Result<
        WrapperProcessContext<'_>,
        ProcessContextError,
    >)
        ensures
            made matches Ok(context) ==> context@.transport == transport,
    {
        let input_events = self.input_events.try_borrow_mut();
        let output_events = self.output_events.try_borrow_mut();
        WrapperProcessContext::from_borrows(input_events, output_events, transport)
    }
}

} // verus!
