//! The state that the three contexts share: the parameter table, the bounded queues towards
//! the host and towards other threads, the task executor, and the notifications owed to the
//! host.

use crate::events::HostRequest;
use crate::events::OutputParamEvent;
use crate::events::PluginState;
use crate::params::ParamInfo;
use crate::params::ParamPtr;
use crate::queue::after_take;
use crate::queue::offered;
use crate::queue::oldest;
use crate::queue::BoundedQueue;
use std::collections::HashMap;
use std::marker::PhantomData;
use vstd::prelude::*;

verus! {

broadcast use vstd::std_specs::hash::group_hash_axioms;

/// The callback that runs a task on the calling thread. It accepts every task.
pub struct TaskExecutor<T, F: Fn(T)> {
    run: F,
    task: PhantomData<T>,
}

impl<T, F: Fn(T)> TaskExecutor<T, F> {
    #[verifier::type_invariant]
    spec fn accepts_every_task(self) -> bool {
        forall|task: T| call_requires(self.run, (task,))
    }

    /// The callback itself.
    pub closed spec fn callback(&self) -> F {
        self.run
    }

    /// An executor that runs tasks by calling `run`, which has to accept every task.
    pub fn new(run: F) -> (executor: Self)
        requires
            forall|task: T| call_requires(run, (task,)),
        ensures
            executor.callback() == run,
    {
        TaskExecutor { run, task: PhantomData }
    }

    /// Runs `task` now, on the calling thread, by one call of the callback.
    pub fn execute(&self, task: T)
        ensures
            call_ensures(self.callback(), (task,), ()),
    {
        proof {
            use_type_invariant(self);
        }
        (self.run)(task)
    }
}

/// The shared state as a mathematical value.
pub struct WrapperView<T, F> {
    /// What each known parameter handle resolves to.
    pub params: Map<u64, ParamInfo>,
    /// The outbox of parameter changes for the host, oldest first.
    pub param_events: Seq<OutputParamEvent>,
    pub param_event_capacity: nat,
    /// Tasks waiting for the background thread, oldest first.
    pub background_tasks: Seq<T>,
    pub background_task_capacity: nat,
    /// Tasks waiting for the GUI thread, oldest first.
    pub gui_tasks: Seq<T>,
    pub gui_task_capacity: nat,
    /// Notifications owed to the host, in the order in which they were raised.
    pub host_requests: Seq<HostRequest>,
    /// Whether an editor is open in a host that lets it ask for a new size.
    pub resizable: bool,
    /// The plugin's persisted state.
    pub state: Seq<u8>,
    pub task_executor: F,
}

impl<T, F> WrapperView<T, F> {
    /// What `param` resolves to, if the handle is known.
    pub open spec fn resolve(self, param: ParamPtr) -> Option<ParamInfo> {
        if self.params.contains_key(param.raw) {
            Some(self.params[param.raw])
        } else {
            None
        }
    }

    /// Whether no queue holds more than its capacity.
    pub open spec fn within_capacity(self) -> bool {
        &&& self.param_events.len() <= self.param_event_capacity
        &&& self.background_tasks.len() <= self.background_task_capacity
        &&& self.gui_tasks.len() <= self.gui_task_capacity
    }

    /// Whether the outbox takes one more event.
    pub open spec fn has_param_event_room(self) -> bool {
        self.param_events.len() < self.param_event_capacity
    }

    /// The state after `event` is offered to the outbox.
    pub open spec fn with_param_event(self, event: OutputParamEvent) -> Self {
        WrapperView {
            param_events: offered(self.param_events, self.param_event_capacity, event),
            ..self
        }
    }

    /// Whether the background queue takes one more task.
    pub open spec fn has_background_task_room(self) -> bool {
        self.background_tasks.len() < self.background_task_capacity
    }

    /// Whether the GUI queue takes one more task.
    pub open spec fn has_gui_task_room(self) -> bool {
        self.gui_tasks.len() < self.gui_task_capacity
    }

    /// The state after `task` is offered to the background queue.
    pub open spec fn with_background_task(self, task: T) -> Self {
        WrapperView {
            background_tasks: offered(self.background_tasks, self.background_task_capacity, task),
            ..self
        }
    }

    /// The state after `task` is offered to the GUI queue.
    pub open spec fn with_gui_task(self, task: T) -> Self {
        WrapperView {
            gui_tasks: offered(self.gui_tasks, self.gui_task_capacity, task),
            ..self
        }
    }

    /// The state after one more notification is owed to the host.
    pub open spec fn with_host_request(self, request: HostRequest) -> Self {
        WrapperView { host_requests: self.host_requests.push(request), ..self }
    }

    /// The state after the editor asked for a new size: the request is owed to the host only
    /// where one can be made.
    pub open spec fn with_resize_request(self) -> Self {
        if self.resizable {
            self.with_host_request(HostRequest::Resize)
        } else {
            self
        }
    }
}

/// The plugin instance as the host holds it: the wrapper around the plugin, whose state the
/// initialization, processing and GUI contexts share.
///
/// `T` is the plugin's type of background task and `F` the callback that runs one.
pub struct Wrapper<T, F: Fn(T)> {
    params: HashMap<u64, ParamInfo>,
    output_parameter_events: BoundedQueue<OutputParamEvent>,
    background_tasks: BoundedQueue<T>,
    gui_tasks: BoundedQueue<T>,
    host_requests: Vec<HostRequest>,
    resizable: bool,
    state: Vec<u8>,
    task_executor: TaskExecutor<T, F>,
}

impl<T, F: Fn(T)> View for Wrapper<T, F> {
    type V = WrapperView<T, F>;

    closed spec fn view(&self) -> WrapperView<T, F> {
        WrapperView {
            params: self.params@,
            param_events: self.output_parameter_events@,
            param_event_capacity: self.output_parameter_events.spec_capacity(),
            background_tasks: self.background_tasks@,
            background_task_capacity: self.background_tasks.spec_capacity(),
            gui_tasks: self.gui_tasks@,
            gui_task_capacity: self.gui_tasks.spec_capacity(),
            host_requests: self.host_requests@,
            resizable: self.resizable,
            state: self.state@,
            task_executor: self.task_executor.callback(),
        }
    }
}

impl<T, F: Fn(T)> Wrapper<T, F> {
    /// Shared state with no parameters, empty queues, nothing owed to the host, an empty
    /// persisted state and no editor. The outbox takes `param_event_capacity` events and each
    /// task queue `task_capacity` tasks. The task executor has to accept every task.
    pub fn new(task_executor: F, param_event_capacity: usize, task_capacity: usize) -> (wrapper:
        Self)
        requires
            forall|task: T| call_requires(task_executor, (task,)),
        ensures
            wrapper@ == (WrapperView {
                params: Map::<u64, ParamInfo>::empty(),
                param_events: Seq::<OutputParamEvent>::empty(),
                param_event_capacity: param_event_capacity as nat,
                background_tasks: Seq::<T>::empty(),
                background_task_capacity: task_capacity as nat,
                gui_tasks: Seq::<T>::empty(),
                gui_task_capacity: task_capacity as nat,
                host_requests: Seq::<HostRequest>::empty(),
                resizable: false,
                state: Seq::<u8>::empty(),
                task_executor,
            }),
    {
        Wrapper {
            params: HashMap::new(),
            output_parameter_events: BoundedQueue::new(param_event_capacity),
            background_tasks: BoundedQueue::new(task_capacity),
            gui_tasks: BoundedQueue::new(task_capacity),
            host_requests: Vec::new(),
            resizable: false,
            state: Vec::new(),
            task_executor: TaskExecutor::new(task_executor),
        }
    }

    /// Makes `param` a known handle that resolves to `info`, replacing what it resolved to
    /// before.
    pub fn register_param(&mut self, param: ParamPtr, info: ParamInfo)
        ensures
            final(self)@ == (WrapperView {
                params: old(self)@.params.insert(param.raw, info),
                ..old(self)@
            }),
    {
        self.params.insert(param.raw, info);
    }

    /// Records whether an editor is open in a host that lets it ask for a new size.
    pub fn set_resizable(&mut self, resizable: bool)
        ensures
            final(self)@ == (WrapperView { resizable, ..old(self)@ }),
    {
        self.resizable = resizable;
    }

    /// Resolves a parameter handle.
    pub fn param_info(&self, param: ParamPtr) -> (info: Option<ParamInfo>)
        ensures
            info == self@.resolve(param),
    {
        match self.params.get(&param.raw) {
            Some(info) => Some(*info),
            None => None,
        }
    }

    /// Shared state never holds more in a queue than the queue's capacity.
    pub proof fn lemma_within_capacity(&self)
        ensures
            self@.within_capacity(),
    {
        self.output_parameter_events.lemma_within_capacity();
        self.background_tasks.lemma_within_capacity();
        self.gui_tasks.lemma_within_capacity();
    }

    /// The number of parameter changes waiting in the outbox.
    pub fn parameter_events_len(&self) -> (len: usize)
        ensures
            len == self@.param_events.len(),
    {
        self.output_parameter_events.len()
    }

    /// Offers a parameter change to the outbox without waiting. Returns whether it was
    /// taken; a full outbox keeps what it holds and the new event is lost.
    pub fn queue_parameter_event(&mut self, event: OutputParamEvent) -> (queued: bool)
        ensures
            queued == old(self)@.has_param_event_room(),
            final(self)@ == old(self)@.with_param_event(event),
    {
        self.output_parameter_events.push(event)
    }

    /// Takes the oldest parameter change out of the outbox.
    pub fn next_parameter_event(&mut self) -> (event: Option<OutputParamEvent>)
        ensures
            event == oldest(old(self)@.param_events),
            final(self)@ == (WrapperView {
                param_events: after_take(old(self)@.param_events),
                ..old(self)@
            }),
    {
        self.output_parameter_events.pop()
    }

    /// Offers a task to the background queue without waiting. Returns whether it was taken;
    /// a full queue keeps what it holds and the task is lost.
    pub fn schedule_background(&mut self, task: T) -> (posted: bool)
        ensures
            posted == old(self)@.has_background_task_room(),
            final(self)@ == old(self)@.with_background_task(task),
    {
        self.background_tasks.push(task)
    }

    /// Takes the oldest task out of the background queue.
    pub fn next_background_task(&mut self) -> (task: Option<T>)
        ensures
            task == oldest(old(self)@.background_tasks),
            final(self)@ == (WrapperView {
                background_tasks: after_take(old(self)@.background_tasks),
                ..old(self)@
            }),
    {
        self.background_tasks.pop()
    }

    /// Offers a task to the GUI queue without waiting. Returns whether it was taken; a full
    /// queue keeps what it holds and the task is lost.
    pub fn schedule_gui(&mut self, task: T) -> (posted: bool)
        ensures
            posted == old(self)@.has_gui_task_room(),
            final(self)@ == old(self)@.with_gui_task(task),
    {
        self.gui_tasks.push(task)
    }

    /// Takes the oldest task out of the GUI queue.
    pub fn next_gui_task(&mut self) -> (task: Option<T>)
        ensures
            task == oldest(old(self)@.gui_tasks),
            final(self)@ == (WrapperView {
                gui_tasks: after_take(old(self)@.gui_tasks),
                ..old(self)@
            }),
    {
        self.gui_tasks.pop()
    }

    /// Runs `task` now, on the calling thread, by one call of the task executor.
    pub fn execute(&self, task: T)
        ensures
            call_ensures(self@.task_executor, (task,), ()),
    {
        self.task_executor.execute(task)
    }

    /// Notes that the host has to be told of a new latency.
    pub fn set_latency_samples(&mut self, samples: u32)
        ensures
            final(self)@ == old(self)@.with_host_request(HostRequest::LatencyChanged { samples }),
    {
        self.host_requests.push(HostRequest::LatencyChanged { samples });
    }

    /// Notes that the host has to be told of a new voice capacity.
    pub fn set_current_voice_capacity(&mut self, capacity: u32)
        ensures
            final(self)@ == old(self)@.with_host_request(
                HostRequest::VoiceCapacityChanged { capacity },
            ),
    {
        self.host_requests.push(HostRequest::VoiceCapacityChanged { capacity });
    }

    /// Asks the host to resize the editor. Returns whether the request could be made, which
    /// needs an open editor in a host that takes such requests.
    pub fn request_resize(&mut self) -> (accepted: bool)
        ensures
            accepted == old(self)@.resizable,
            final(self)@ == old(self)@.with_resize_request(),
    {
        if self.resizable {
            self.host_requests.push(HostRequest::Resize);
            true
        } else {
            false
        }
    }

    /// Hands over the notifications owed to the host, oldest first, and owes none after.
    pub fn take_host_requests(&mut self) -> (requests: Vec<HostRequest>)
        ensures
            requests@ == old(self)@.host_requests,
            final(self)@ == (WrapperView {
                host_requests: Seq::<HostRequest>::empty(),
                ..old(self)@
            }),
    {
        let mut requests: Vec<HostRequest> = Vec::new();
        std::mem::swap(&mut requests, &mut self.host_requests);
        requests
    }

    /// A copy of the plugin's persisted state.
    pub fn get_state_object(&self) -> (state: PluginState)
        ensures
            state@ == self@.state,
    {
        let data = self.state.clone();
        assert(data@ =~= self.state@);
        PluginState { data }
    }

    /// Replaces the plugin's persisted state.
    pub fn set_state_object_from_gui(&mut self, state: PluginState)
        ensures
            final(self)@ == (WrapperView { state: state@, ..old(self)@ }),
    {
        self.state = state.data;
    }
}

} // verus!
