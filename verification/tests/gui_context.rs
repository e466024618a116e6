use context_bridge::events::HostRequest;
use context_bridge::events::OutputParamEvent;
use context_bridge::events::PluginApi;
use context_bridge::events::PluginState;
use context_bridge::gesture::GestureState;
use context_bridge::gui_context::Delivery;
use context_bridge::gui_context::ParamEventReport;
use context_bridge::gui_context::WrapperGuiContext;
use context_bridge::params::ParamInfo;
use context_bridge::params::ParamPtr;
use context_bridge::wrapper::Wrapper;

const STEPPED: ParamPtr = ParamPtr { raw: 0x1000 };
const CONTINUOUS: ParamPtr = ParamPtr { raw: 0x2000 };
const UNKNOWN: ParamPtr = ParamPtr { raw: 0x3000 };

const STEPPED_HASH: u32 = 41;
const CONTINUOUS_HASH: u32 = 42;

const SENT: ParamEventReport =
    ParamEventReport { delivery: Delivery::Queued, gesture_violation: false };
const SENT_BUT_FLAGGED: ParamEventReport =
    ParamEventReport { delivery: Delivery::Queued, gesture_violation: true };
const LOST: ParamEventReport =
    ParamEventReport { delivery: Delivery::QueueFull, gesture_violation: false };
const NOT_KNOWN: ParamEventReport =
    ParamEventReport { delivery: Delivery::UnknownParameter, gesture_violation: false };

fn wrapper_with_params(outbox_capacity: usize) -> Wrapper<u32, fn(u32)> {
    fn ignore(_task: u32) {}
    let mut wrapper = Wrapper::new(ignore as fn(u32), outbox_capacity, 4);
    wrapper.register_param(STEPPED, ParamInfo { hash: STEPPED_HASH, id: 1, step_count: Some(4) });
    wrapper.register_param(
        CONTINUOUS,
        ParamInfo { hash: CONTINUOUS_HASH, id: 2, step_count: None },
    );
    wrapper
}

fn drain(wrapper: &mut Wrapper<u32, fn(u32)>) -> Vec<OutputParamEvent> {
    let mut events = Vec::new();
    while let Some(event) = wrapper.next_parameter_event() {
        events.push(event);
    }
    events
}

/// The plain value that the host is given for a `SetValue` event.
fn plain_value(event: &OutputParamEvent) -> f64 {
    match event {
        OutputParamEvent::SetValue { normalized_bits, step_scale, .. } => {
            f32::from_bits(*normalized_bits) as f64 * *step_scale as f64
        }
        _ => panic!("not a SetValue event"),
    }
}

#[test]
fn gui_context_reports_clap() {
    assert_eq!(WrapperGuiContext::new(true).plugin_api(), PluginApi::Clap);
}

#[test]
fn gui_gesture_sends_begin_set_end_in_order() {
    let mut wrapper = wrapper_with_params(8);
    let mut gui = WrapperGuiContext::new(true);
    let half = 0.5f32.to_bits();

    assert_eq!(gui.raw_begin_set_parameter(&mut wrapper, STEPPED), SENT);
    assert_eq!(gui.gesture_state(1), Some(GestureState::InGesture));
    assert_eq!(gui.raw_set_parameter_normalized(&mut wrapper, STEPPED, half), SENT);
    assert_eq!(gui.raw_end_set_parameter(&mut wrapper, STEPPED), SENT);
    assert_eq!(gui.gesture_state(1), Some(GestureState::Idle));

    assert_eq!(
        drain(&mut wrapper),
        vec![
            OutputParamEvent::BeginGesture { param_hash: STEPPED_HASH },
            OutputParamEvent::SetValue {
                param_hash: STEPPED_HASH,
                normalized_bits: half,
                step_scale: 4,
            },
            OutputParamEvent::EndGesture { param_hash: STEPPED_HASH },
        ]
    );
}

#[test]
fn gui_stepped_parameter_is_scaled_by_its_step_count() {
    let mut wrapper = wrapper_with_params(8);
    let mut gui = WrapperGuiContext::new(true);
    gui.raw_begin_set_parameter(&mut wrapper, STEPPED);
    gui.raw_set_parameter_normalized(&mut wrapper, STEPPED, 0.5f32.to_bits());
    let events = drain(&mut wrapper);
    assert_eq!(plain_value(&events[1]), 2.0);
}

#[test]
fn gui_continuous_parameter_is_passed_through_unscaled() {
    let mut wrapper = wrapper_with_params(8);
    let mut gui = WrapperGuiContext::new(true);
    gui.raw_begin_set_parameter(&mut wrapper, CONTINUOUS);
    gui.raw_set_parameter_normalized(&mut wrapper, CONTINUOUS, 0.37f32.to_bits());
    let events = drain(&mut wrapper);
    assert_eq!(
        events[1],
        OutputParamEvent::SetValue {
            param_hash: CONTINUOUS_HASH,
            normalized_bits: 0.37f32.to_bits(),
            step_scale: 1,
        }
    );
    assert_eq!(plain_value(&events[1]), 0.37f32 as f64);
    assert!((plain_value(&events[1]) - 0.37).abs() < 1e-7);
}

#[test]
fn gui_parameter_with_one_step_is_passed_through_unscaled() {
    fn ignore(_task: u32) {}
    let mut wrapper = Wrapper::new(ignore as fn(u32), 8, 4);
    let toggle = ParamPtr { raw: 5 };
    wrapper.register_param(toggle, ParamInfo { hash: 77, id: 9, step_count: Some(1) });
    let mut gui = WrapperGuiContext::new(true);
    gui.raw_begin_set_parameter(&mut wrapper, toggle);
    gui.raw_set_parameter_normalized(&mut wrapper, toggle, 0.37f32.to_bits());
    let events = drain(&mut wrapper);
    assert_eq!(plain_value(&events[1]), 0.37f32 as f64);
}

#[test]
fn gui_several_values_inside_one_gesture() {
    let mut wrapper = wrapper_with_params(8);
    let mut gui = WrapperGuiContext::new(true);
    assert_eq!(gui.raw_begin_set_parameter(&mut wrapper, STEPPED), SENT);
    for value in [0.0f32, 0.25, 1.0] {
        assert_eq!(gui.raw_set_parameter_normalized(&mut wrapper, STEPPED, value.to_bits()), SENT);
    }
    assert_eq!(gui.raw_end_set_parameter(&mut wrapper, STEPPED), SENT);
    let events = drain(&mut wrapper);
    assert_eq!(events.len(), 5);
    assert_eq!(plain_value(&events[1]), 0.0);
    assert_eq!(plain_value(&events[2]), 1.0);
    assert_eq!(plain_value(&events[3]), 4.0);
}

#[test]
fn gui_empty_gesture_is_allowed() {
    let mut wrapper = wrapper_with_params(8);
    let mut gui = WrapperGuiContext::new(true);
    assert_eq!(gui.raw_begin_set_parameter(&mut wrapper, CONTINUOUS), SENT);
    assert_eq!(gui.raw_end_set_parameter(&mut wrapper, CONTINUOUS), SENT);
    assert_eq!(
        drain(&mut wrapper),
        vec![
            OutputParamEvent::BeginGesture { param_hash: CONTINUOUS_HASH },
            OutputParamEvent::EndGesture { param_hash: CONTINUOUS_HASH },
        ]
    );
}

#[test]
fn gui_set_without_begin_is_sent_and_flagged() {
    let mut wrapper = wrapper_with_params(8);
    let gui = WrapperGuiContext::new(true);
    let bits = 0.75f32.to_bits();
    assert_eq!(gui.raw_set_parameter_normalized(&mut wrapper, STEPPED, bits), SENT_BUT_FLAGGED);
    assert_eq!(gui.gesture_state(1), Some(GestureState::Idle));
    assert_eq!(
        drain(&mut wrapper),
        vec![OutputParamEvent::SetValue {
            param_hash: STEPPED_HASH,
            normalized_bits: bits,
            step_scale: 4,
        }]
    );
}

#[test]
fn gui_set_after_end_is_sent_and_flagged() {
    let mut wrapper = wrapper_with_params(8);
    let mut gui = WrapperGuiContext::new(true);
    gui.raw_begin_set_parameter(&mut wrapper, STEPPED);
    gui.raw_end_set_parameter(&mut wrapper, STEPPED);
    assert_eq!(
        gui.raw_set_parameter_normalized(&mut wrapper, STEPPED, 0.5f32.to_bits()),
        SENT_BUT_FLAGGED
    );
    assert_eq!(drain(&mut wrapper).len(), 3);
}

#[test]
fn gui_end_without_begin_is_sent_and_flagged() {
    let mut wrapper = wrapper_with_params(8);
    let mut gui = WrapperGuiContext::new(true);
    assert_eq!(gui.raw_end_set_parameter(&mut wrapper, STEPPED), SENT_BUT_FLAGGED);
    assert_eq!(gui.gesture_state(1), Some(GestureState::Idle));
    assert_eq!(
        drain(&mut wrapper),
        vec![OutputParamEvent::EndGesture { param_hash: STEPPED_HASH }]
    );
}

#[test]
fn gui_begin_inside_gesture_is_sent_and_flagged() {
    let mut wrapper = wrapper_with_params(8);
    let mut gui = WrapperGuiContext::new(true);
    assert_eq!(gui.raw_begin_set_parameter(&mut wrapper, STEPPED), SENT);
    assert_eq!(gui.raw_begin_set_parameter(&mut wrapper, STEPPED), SENT_BUT_FLAGGED);
    assert_eq!(gui.gesture_state(1), Some(GestureState::InGesture));
    assert_eq!(gui.raw_end_set_parameter(&mut wrapper, STEPPED), SENT);
    assert_eq!(gui.raw_end_set_parameter(&mut wrapper, STEPPED), SENT_BUT_FLAGGED);
    assert_eq!(
        drain(&mut wrapper),
        vec![
            OutputParamEvent::BeginGesture { param_hash: STEPPED_HASH },
            OutputParamEvent::BeginGesture { param_hash: STEPPED_HASH },
            OutputParamEvent::EndGesture { param_hash: STEPPED_HASH },
            OutputParamEvent::EndGesture { param_hash: STEPPED_HASH },
        ]
    );
}

#[test]
fn gui_gestures_on_two_parameters_do_not_mix() {
    let mut wrapper = wrapper_with_params(8);
    let mut gui = WrapperGuiContext::new(true);
    assert_eq!(gui.raw_begin_set_parameter(&mut wrapper, STEPPED), SENT);
    assert_eq!(
        gui.raw_set_parameter_normalized(&mut wrapper, CONTINUOUS, 0.5f32.to_bits()),
        SENT_BUT_FLAGGED
    );
    assert_eq!(gui.raw_begin_set_parameter(&mut wrapper, CONTINUOUS), SENT);
    assert_eq!(gui.raw_end_set_parameter(&mut wrapper, STEPPED), SENT);
    assert_eq!(gui.gesture_state(1), Some(GestureState::Idle));
    assert_eq!(gui.gesture_state(2), Some(GestureState::InGesture));
    assert_eq!(gui.raw_end_set_parameter(&mut wrapper, CONTINUOUS), SENT);
}

#[test]
fn gui_without_gesture_checks_nothing_is_flagged() {
    let mut wrapper = wrapper_with_params(8);
    let mut gui = WrapperGuiContext::new(false);
    assert_eq!(gui.gesture_state(1), None);
    assert_eq!(gui.raw_set_parameter_normalized(&mut wrapper, STEPPED, 0.5f32.to_bits()), SENT);
    assert_eq!(gui.raw_end_set_parameter(&mut wrapper, STEPPED), SENT);
    assert_eq!(gui.raw_begin_set_parameter(&mut wrapper, STEPPED), SENT);
    assert_eq!(gui.raw_begin_set_parameter(&mut wrapper, STEPPED), SENT);
    assert_eq!(gui.gesture_state(1), None);
    assert_eq!(
        drain(&mut wrapper),
        vec![
            OutputParamEvent::SetValue {
                param_hash: STEPPED_HASH,
                normalized_bits: 0.5f32.to_bits(),
                step_scale: 4,
            },
            OutputParamEvent::EndGesture { param_hash: STEPPED_HASH },
            OutputParamEvent::BeginGesture { param_hash: STEPPED_HASH },
            OutputParamEvent::BeginGesture { param_hash: STEPPED_HASH },
        ]
    );
}

#[test]
fn gui_unknown_parameter_enqueues_nothing() {
    let mut wrapper = wrapper_with_params(8);
    let mut gui = WrapperGuiContext::new(true);
    assert_eq!(gui.raw_begin_set_parameter(&mut wrapper, UNKNOWN), NOT_KNOWN);
    assert_eq!(
        gui.raw_set_parameter_normalized(&mut wrapper, UNKNOWN, 0.5f32.to_bits()),
        NOT_KNOWN
    );
    assert_eq!(gui.raw_end_set_parameter(&mut wrapper, UNKNOWN), NOT_KNOWN);
    assert_eq!(wrapper.parameter_events_len(), 0);
    assert!(drain(&mut wrapper).is_empty());
    assert!(wrapper.take_host_requests().is_empty());
}

#[test]
fn gui_unknown_parameter_without_gesture_checks_enqueues_nothing() {
    let mut wrapper = wrapper_with_params(8);
    let mut gui = WrapperGuiContext::new(false);
    assert_eq!(gui.raw_begin_set_parameter(&mut wrapper, UNKNOWN), NOT_KNOWN);
    assert_eq!(
        gui.raw_set_parameter_normalized(&mut wrapper, UNKNOWN, 0.5f32.to_bits()),
        NOT_KNOWN
    );
    assert_eq!(gui.raw_end_set_parameter(&mut wrapper, UNKNOWN), NOT_KNOWN);
    assert!(drain(&mut wrapper).is_empty());
}

#[test]
fn gui_unknown_parameter_does_not_disturb_an_open_gesture() {
    let mut wrapper = wrapper_with_params(8);
    let mut gui = WrapperGuiContext::new(true);
    assert_eq!(gui.raw_begin_set_parameter(&mut wrapper, STEPPED), SENT);
    assert_eq!(gui.raw_end_set_parameter(&mut wrapper, UNKNOWN), NOT_KNOWN);
    assert_eq!(gui.gesture_state(1), Some(GestureState::InGesture));
    assert_eq!(gui.raw_end_set_parameter(&mut wrapper, STEPPED), SENT);
}

#[test]
fn gui_outbox_at_capacity_drops_the_newest_event() {
    let mut wrapper = wrapper_with_params(2);
    let mut gui = WrapperGuiContext::new(true);
    let bits = 0.25f32.to_bits();
    assert_eq!(gui.raw_begin_set_parameter(&mut wrapper, STEPPED), SENT);
    assert_eq!(gui.raw_set_parameter_normalized(&mut wrapper, STEPPED, bits), SENT);
    assert_eq!(wrapper.parameter_events_len(), 2);

    assert_eq!(gui.raw_set_parameter_normalized(&mut wrapper, STEPPED, 1.0f32.to_bits()), LOST);
    assert_eq!(gui.raw_end_set_parameter(&mut wrapper, STEPPED), LOST);
    assert_eq!(gui.raw_begin_set_parameter(&mut wrapper, CONTINUOUS), LOST);
    assert_eq!(wrapper.parameter_events_len(), 2);

    assert_eq!(
        drain(&mut wrapper),
        vec![
            OutputParamEvent::BeginGesture { param_hash: STEPPED_HASH },
            OutputParamEvent::SetValue {
                param_hash: STEPPED_HASH,
                normalized_bits: bits,
                step_scale: 4,
            },
        ]
    );
}

#[test]
fn gui_gesture_bookkeeping_goes_on_when_the_outbox_is_full() {
    let mut wrapper = wrapper_with_params(0);
    let mut gui = WrapperGuiContext::new(true);
    assert_eq!(gui.raw_begin_set_parameter(&mut wrapper, STEPPED), LOST);
    assert_eq!(gui.gesture_state(1), Some(GestureState::InGesture));
    assert_eq!(gui.raw_set_parameter_normalized(&mut wrapper, STEPPED, 0), LOST);
    assert_eq!(gui.raw_end_set_parameter(&mut wrapper, STEPPED), LOST);
    assert_eq!(gui.gesture_state(1), Some(GestureState::Idle));
    assert_eq!(
        gui.raw_end_set_parameter(&mut wrapper, STEPPED),
        ParamEventReport { delivery: Delivery::QueueFull, gesture_violation: true }
    );
}

#[test]
fn gui_outbox_takes_events_again_after_a_flush() {
    let mut wrapper = wrapper_with_params(1);
    let mut gui = WrapperGuiContext::new(true);
    assert_eq!(gui.raw_begin_set_parameter(&mut wrapper, STEPPED), SENT);
    assert_eq!(gui.raw_end_set_parameter(&mut wrapper, STEPPED), LOST);
    assert_eq!(drain(&mut wrapper).len(), 1);
    assert_eq!(gui.raw_begin_set_parameter(&mut wrapper, STEPPED), SENT);
}

#[test]
fn gui_request_resize_is_forwarded() {
    let mut wrapper = wrapper_with_params(8);
    let gui = WrapperGuiContext::new(true);
    assert!(!gui.request_resize(&mut wrapper));
    assert!(wrapper.take_host_requests().is_empty());
    wrapper.set_resizable(true);
    assert!(gui.request_resize(&mut wrapper));
    assert_eq!(wrapper.take_host_requests(), vec![HostRequest::Resize]);
}

#[test]
fn gui_state_is_read_and_replaced_through_the_context() {
    let mut wrapper = wrapper_with_params(8);
    let gui = WrapperGuiContext::new(true);
    assert_eq!(gui.get_state(&wrapper), PluginState { data: Vec::new() });
    gui.set_state(&mut wrapper, PluginState { data: vec![7, 8, 9] });
    assert_eq!(gui.get_state(&wrapper), PluginState { data: vec![7, 8, 9] });
    assert_eq!(wrapper.get_state_object(), PluginState { data: vec![7, 8, 9] });
    // Loading state is no gesture and sends the host no parameter event.
    assert_eq!(wrapper.parameter_events_len(), 0);
}
