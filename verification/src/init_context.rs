//! The context a plugin sees while the host initializes it.
//!
//! The host is still inside its own setup call at that time and must not be called back. A
//! latency change asked for during initialization is therefore only remembered, and the host
//! is told once, when the context is closed after the setup call has returned.

use crate::events::HostRequest;
use crate::events::PluginApi;
use crate::wrapper::Wrapper;
use crate::wrapper::WrapperView;
use vstd::prelude::*;

verus! {

/// What an initialization context has been asked to tell the host once it is closed.
pub struct PendingInitContextRequests {
    /// The value of the last latency change asked for, if there was one.
    latency_changed: Option<u32>,
}

impl View for PendingInitContextRequests {
    type V = Option<u32>;

    closed spec fn view(&self) -> Option<u32> {
        self.latency_changed
    }
}

/// The shared state after an initialization context with the pending latency `pending` is
/// closed: one latency change is owed to the host if a latency is pending, and nothing
/// otherwise.
pub open spec fn flushed<T, F>(wrapper: WrapperView<T, F>, pending: Option<u32>) -> WrapperView<
    T,
    F,
> {
    match pending {
        Some(samples) => wrapper.with_host_request(HostRequest::LatencyChanged { samples }),
        None => wrapper,
    }
}

/// The context of one initialization call. Its view is the pending latency.
pub struct WrapperInitContext {
    pending_requests: PendingInitContextRequests,
}

impl View for WrapperInitContext {
    type V = Option<u32>;

    closed spec fn view(&self) -> Option<u32> {
        self.pending_requests@
    }
}

impl WrapperInitContext {
    /// A context with nothing pending.
    pub fn new() -> (context: Self)
        ensures
            context@ == None::<u32>,
    {
        WrapperInitContext {
            pending_requests: PendingInitContextRequests { latency_changed: None },
        }
    }

    pub fn plugin_api(&self) -> (api: PluginApi)
        ensures
            api == PluginApi::Clap,
    {
        PluginApi::Clap
    }

    /// The latency that will be reported when the context is closed.
    pub fn pending_latency(&self) -> (pending: Option<u32>)
        ensures
            pending == self@,
    {
        self.pending_requests.latency_changed
    }

    /// Runs `task` at once on the calling thread, by one call of the task executor.
    pub fn execute<T, F: Fn(T)>(&self, wrapper: &Wrapper<T, F>, task: T)
        ensures
            call_ensures(wrapper@.task_executor, (task,), ()),
    {
        wrapper.execute(task)
    }

    /// Remembers `samples` as the latency to report, in place of any value remembered
    /// before. The host is not told yet.
    pub fn set_latency_samples(&mut self, samples: u32)
        ensures
            final(self)@ == Some(samples),
    {
        self.pending_requests.latency_changed = Some(samples);
    }

    /// Passes the new voice capacity on to the shared state at once.
    pub fn set_current_voice_capacity<T, F: Fn(T)>(
        &self,
        wrapper: &mut Wrapper<T, F>,
        capacity: u32,
    )
        ensures
            final(wrapper)@ == old(wrapper)@.with_host_request(
                HostRequest::VoiceCapacityChanged { capacity },
            ),
    {
        wrapper.set_current_voice_capacity(capacity)
    }

    /// Closes the context: the pending latency, if there is one, is passed on to the shared
    /// state, once. The context is used up, so this cannot happen a second time.
    pub fn finish<T, F: Fn(T)>(self, wrapper: &mut Wrapper<T, F>)
        ensures
            final(wrapper)@ == flushed(old(wrapper)@, self@),
    {
        if let Some(samples) = self.pending_requests.latency_changed {
            wrapper.set_latency_samples(samples)
        }
    }
}

} // verus!
