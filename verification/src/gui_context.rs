//! The context a plugin's editor uses on the GUI thread.
//!
//! Its main work is the gesture protocol for automatable parameters: the host is told when an
//! interactive edit begins, of each value set during it, and when it ends. Each of the three
//! calls resolves the parameter handle, offers one event to the outbox, and, where gesture
//! checks are switched on, looks the call up against the protocol. A broken protocol or a full
//! outbox is reported to the caller; neither stops the other part of the call.

use crate::events::OutputParamEvent;
use crate::events::PluginApi;
use crate::events::PluginState;
use crate::gesture::after_begin;
use crate::gesture::after_end;
use crate::gesture::begin_violates;
use crate::gesture::gesture_state;
use crate::gesture::needs_begin;
use crate::gesture::GestureState;
use crate::gesture::ParamGestureChecker;
use crate::params::ParamInfo;
use crate::params::ParamPtr;
use crate::wrapper::Wrapper;
use crate::wrapper::WrapperView;
use vstd::prelude::*;

verus! {

/// What became of the event that a gesture call had for the host.
#[derive(Clone, Copy, Debug, PartialEq, Eq, Structural)]
pub enum Delivery {
    /// The event is in the outbox.
    Queued,
    /// The outbox was full; the event is lost.
    QueueFull,
    /// The parameter handle is not known; no event was made.
    UnknownParameter,
}

/// What a gesture call has to report. Both fields are for diagnostics only.
#[derive(Clone, Copy, Debug, PartialEq, Eq, Structural)]
pub struct ParamEventReport {
    pub delivery: Delivery,
    /// Whether the call broke the gesture protocol. Always `false` where gesture checks are
    /// switched off or the handle is not known.
    pub gesture_violation: bool,
}

/// The shared state, the gesture table and the report after one gesture call.
pub struct GuiOutcome<T, F> {
    pub wrapper: WrapperView<T, F>,
    pub checker: Option<Map<u32, GestureState>>,
    pub report: ParamEventReport,
}

/// How an event for a known parameter fares in `wrapper`.
pub open spec fn delivery_in<T, F>(wrapper: WrapperView<T, F>) -> Delivery {
    if wrapper.has_param_event_room() {
        Delivery::Queued
    } else {
        Delivery::QueueFull
    }
}

/// The outcome of a call with a handle that is not known: nothing changes.
pub open spec fn unknown_outcome<T, F>(
    wrapper: WrapperView<T, F>,
    checker: Option<Map<u32, GestureState>>,
) -> GuiOutcome<T, F> {
    GuiOutcome {
        wrapper,
        checker,
        report: ParamEventReport {
            delivery: Delivery::UnknownParameter,
            gesture_violation: false,
        },
    }
}

/// The event that sets a parameter to the normalized value with the bit pattern
/// `normalized_bits`. It carries the normalized value and the factor that makes it a plain
/// value: the step count of a stepped parameter, 1 for a continuous one.
pub open spec fn set_value_event(info: ParamInfo, normalized_bits: u32) -> OutputParamEvent {
    OutputParamEvent::SetValue {
        param_hash: info.hash,
        normalized_bits,
        step_scale: info.step_scale(),
    }
}

/// The outcome of beginning a gesture on `param`.
pub open spec fn begin_outcome<T, F>(
    wrapper: WrapperView<T, F>,
    checker: Option<Map<u32, GestureState>>,
    param: ParamPtr,
) -> GuiOutcome<T, F> {
    match wrapper.resolve(param) {
        Some(info) => GuiOutcome {
            wrapper: wrapper.with_param_event(
                OutputParamEvent::BeginGesture { param_hash: info.hash },
            ),
            checker: match checker {
                Some(table) => Some(after_begin(table, info.id)),
                None => None,
            },
            report: ParamEventReport {
                delivery: delivery_in(wrapper),
                gesture_violation: match checker {
                    Some(table) => begin_violates(table, info.id),
                    None => false,
                },
            },
        },
        None => unknown_outcome(wrapper, checker),
    }
}

/// The outcome of setting `param` to a normalized value.
pub open spec fn set_outcome<T, F>(
    wrapper: WrapperView<T, F>,
    checker: Option<Map<u32, GestureState>>,
    param: ParamPtr,
    normalized_bits: u32,
) -> GuiOutcome<T, F> {
    match wrapper.resolve(param) {
        Some(info) => GuiOutcome {
            wrapper: wrapper.with_param_event(set_value_event(info, normalized_bits)),
            checker,
            report: ParamEventReport {
                delivery: delivery_in(wrapper),
                gesture_violation: match checker {
                    Some(table) => needs_begin(table, info.id),
                    None => false,
                },
            },
        },
        None => unknown_outcome(wrapper, checker),
    }
}

/// The outcome of ending the gesture on `param`.
pub open spec fn end_outcome<T, F>(
    wrapper: WrapperView<T, F>,
    checker: Option<Map<u32, GestureState>>,
    param: ParamPtr,
) -> GuiOutcome<T, F> {
    match wrapper.resolve(param) {
        Some(info) => GuiOutcome {
            wrapper: wrapper.with_param_event(
                OutputParamEvent::EndGesture { param_hash: info.hash },
            ),
            checker: match checker {
                Some(table) => Some(after_end(table, info.id)),
                None => None,
            },
            report: ParamEventReport {
                delivery: delivery_in(wrapper),
                gesture_violation: match checker {
                    Some(table) => needs_begin(table, info.id),
                    None => false,
                },
            },
        },
        None => unknown_outcome(wrapper, checker),
    }
}

/// The context of the GUI thread. It lives as long as the editor and owns the gesture
/// table, if gesture checks are switched on. Its view is that table.
pub struct WrapperGuiContext {
    param_gesture_checker: Option<ParamGestureChecker>,
}

impl View for WrapperGuiContext {
    type V = Option<Map<u32, GestureState>>;

    closed spec fn view(&self) -> Option<Map<u32, GestureState>> {
        match self.param_gesture_checker {
            Some(checker) => Some(checker@),
            None => None,
        }
    }
}

impl WrapperGuiContext {
    /// A context that has seen no gesture. With `check_gestures` it keeps a gesture table and
    /// reports calls that break the protocol; without, it keeps none.
    pub fn new(check_gestures: bool) -> (context: Self)
        ensures
            context@ == if check_gestures {
                Some(Map::<u32, GestureState>::empty())
            } else {
                None
            },
    {
        if check_gestures {
            WrapperGuiContext { param_gesture_checker: Some(ParamGestureChecker::new()) }
        } else {
            WrapperGuiContext { param_gesture_checker: None }
        }
    }

    pub fn plugin_api(&self) -> (api: PluginApi)
        ensures
            api == PluginApi::Clap,
    {
        PluginApi::Clap
    }

    /// Where the parameter `param_id` stands in the gesture protocol, if gesture checks are
    /// switched on.
    pub fn gesture_state(&self, param_id: u32) -> (state: Option<GestureState>)
        ensures
            state == match self@ {
                Some(table) => Some(gesture_state(table, param_id)),
                None => None,
            },
    {
        match &self.param_gesture_checker {
            Some(checker) => Some(checker.state(param_id)),
            None => None,
        }
    }

    /// Asks the host to resize the editor. Returns whether the request could be made.
    pub fn request_resize<T, F: Fn(T)>(&self, wrapper: &mut Wrapper<T, F>) -> (accepted: bool)
        ensures
            accepted == old(wrapper)@.resizable,
            final(wrapper)@ == old(wrapper)@.with_resize_request(),
    {
        wrapper.request_resize()
    }

    /// Tells the host that an interactive edit of `param` begins.
    ///
    /// A known handle puts one `BeginGesture` event in the outbox, if the outbox has room,
    /// and marks the parameter as being in a gesture. A handle that is not known changes
    /// nothing.
    pub fn raw_begin_set_parameter<T, F: Fn(T)>(
        &mut self,
        wrapper: &mut Wrapper<T, F>,
        param: ParamPtr,
    ) -> (report: ParamEventReport)
        ensures
            final(wrapper)@ == begin_outcome(old(wrapper)@, old(self)@, param).wrapper,
            final(self)@ == begin_outcome(old(wrapper)@, old(self)@, param).checker,
            report == begin_outcome(old(wrapper)@, old(self)@, param).report,
    {
        let resolved = wrapper.param_info(param);
        let delivery = match resolved {
            Some(info) => {
                let queued = wrapper.queue_parameter_event(
                    OutputParamEvent::BeginGesture { param_hash: info.hash },
                );
                if queued {
                    Delivery::Queued
                } else {
                    Delivery::QueueFull
                }
            },
            None => Delivery::UnknownParameter,
        };

        let gesture_violation = match resolved {
            Some(info) => match &mut self.param_gesture_checker {
                Some(checker) => checker.begin_set_parameter(info.id),
                None => false,
            },
            None => false,
        };

        ParamEventReport { delivery, gesture_violation }
    }

    /// Sets `param` to the normalized value whose single-precision bit pattern is
    /// `normalized_bits`.
    ///
    /// A known handle puts one `SetValue` event in the outbox, if the outbox has room. The
    /// event carries the normalized value together with the factor that turns it into the
    /// host's plain value: the step count of a stepped parameter, 1 for a continuous one. A
    /// value set outside a gesture is reported and sent all the same. A handle that is not
    /// known changes nothing. The gesture table is only read.
    pub fn raw_set_parameter_normalized<T, F: Fn(T)>(
        &self,
        wrapper: &mut Wrapper<T, F>,
        param: ParamPtr,
        normalized_bits: u32,
    ) -> (report: ParamEventReport)
        ensures
            final(wrapper)@ == set_outcome(old(wrapper)@, self@, param, normalized_bits).wrapper,
            report == set_outcome(old(wrapper)@, self@, param, normalized_bits).report,
    {
        let resolved = wrapper.param_info(param);
        let delivery = match resolved {
            Some(info) => {
                // The event waits in the outbox until the end of the processing cycle or an
                // explicit flush. The parameter's own value changes only then, so that it
                // cannot change in the middle of a buffer.
                let queued = wrapper.queue_parameter_event(
                    OutputParamEvent::SetValue {
                        param_hash: info.hash,
                        normalized_bits,
                        step_scale: info.step_scale(),
                    },
                );
                if queued {
                    Delivery::Queued
                } else {
                    Delivery::QueueFull
                }
            },
            None => Delivery::UnknownParameter,
        };

        let gesture_violation = match resolved {
            Some(info) => match &self.param_gesture_checker {
                Some(checker) => checker.set_parameter(info.id),
                None => false,
            },
            None => false,
        };

        ParamEventReport { delivery, gesture_violation }
    }

    /// Tells the host that the interactive edit of `param` has ended.
    ///
    /// A known handle puts one `EndGesture` event in the outbox, if the outbox has room, and
    /// marks the parameter as idle again. An end without a begin is reported and sent all the
    /// same. A handle that is not known changes nothing.
    pub fn raw_end_set_parameter<T, F: Fn(T)>(
        &mut self,
        wrapper: &mut Wrapper<T, F>,
        param: ParamPtr,
    ) -> (report: ParamEventReport)
        ensures
            final(wrapper)@ == end_outcome(old(wrapper)@, old(self)@, param).wrapper,
            final(self)@ == end_outcome(old(wrapper)@, old(self)@, param).checker,
            report == end_outcome(old(wrapper)@, old(self)@, param).report,
    {
        let resolved = wrapper.param_info(param);
        let delivery = match resolved {
            Some(info) => {
                let queued = wrapper.queue_parameter_event(
                    OutputParamEvent::EndGesture { param_hash: info.hash },
                );
                if queued {
                    Delivery::Queued
                } else {
                    Delivery::QueueFull
                }
            },
            None => Delivery::UnknownParameter,
        };

        let gesture_violation = match resolved {
            Some(info) => match &mut self.param_gesture_checker {
                Some(checker) => checker.end_set_parameter(info.id),
                None => false,
            },
            None => false,
        };

        ParamEventReport { delivery, gesture_violation }
    }

    /// A copy of the plugin's persisted state.
    pub fn get_state<T, F: Fn(T)>(&self, wrapper: &Wrapper<T, F>) -> (state: PluginState)
        ensures
            state@ == wrapper@.state,
    {
        wrapper.get_state_object()
    }

    /// Replaces the plugin's persisted state with `state`.
    pub fn set_state<T, F: Fn(T)>(&self, wrapper: &mut Wrapper<T, F>, state: PluginState)
        ensures
            final(wrapper)@ == (WrapperView { state: state@, ..old(wrapper)@ }),
    {
        wrapper.set_state_object_from_gui(state)
    }
}

} // verus!
