use context_bridge::events::HostRequest;
use context_bridge::events::PluginApi;
use context_bridge::init_context::WrapperInitContext;
use context_bridge::wrapper::Wrapper;
use std::cell::RefCell;
use std::rc::Rc;

#[test]
fn init_context_reports_clap() {
    let context = WrapperInitContext::new();
    assert_eq!(context.plugin_api(), PluginApi::Clap);
}

#[test]
fn init_latency_is_deferred_until_the_context_is_closed() {
    let mut wrapper = Wrapper::new(|_task: u32| {}, 8, 4);
    let mut context = WrapperInitContext::new();
    assert_eq!(context.pending_latency(), None);
    context.set_latency_samples(256);
    assert_eq!(context.pending_latency(), Some(256));
    assert!(wrapper.take_host_requests().is_empty());
    context.finish(&mut wrapper);
    assert_eq!(
        wrapper.take_host_requests(),
        vec![HostRequest::LatencyChanged { samples: 256 }]
    );
}

#[test]
fn init_only_the_last_latency_is_flushed_and_only_once() {
    let mut wrapper = Wrapper::new(|_task: u32| {}, 8, 4);
    let mut context = WrapperInitContext::new();
    context.set_latency_samples(64);
    context.set_latency_samples(512);
    context.set_latency_samples(128);
    assert_eq!(context.pending_latency(), Some(128));
    context.finish(&mut wrapper);
    assert_eq!(
        wrapper.take_host_requests(),
        vec![HostRequest::LatencyChanged { samples: 128 }]
    );
    assert!(wrapper.take_host_requests().is_empty());
}

#[test]
fn init_without_latency_flushes_nothing() {
    let mut wrapper = Wrapper::new(|_task: u32| {}, 8, 4);
    let context = WrapperInitContext::new();
    context.finish(&mut wrapper);
    assert!(wrapper.take_host_requests().is_empty());
}

#[test]
fn init_latency_zero_is_still_a_value() {
    let mut wrapper = Wrapper::new(|_task: u32| {}, 8, 4);
    let mut context = WrapperInitContext::new();
    context.set_latency_samples(0);
    context.finish(&mut wrapper);
    assert_eq!(
        wrapper.take_host_requests(),
        vec![HostRequest::LatencyChanged { samples: 0 }]
    );
}

#[test]
fn init_flush_comes_after_what_was_forwarded_at_once() {
    let mut wrapper = Wrapper::new(|_task: u32| {}, 8, 4);
    let mut context = WrapperInitContext::new();
    context.set_latency_samples(32);
    context.set_current_voice_capacity(&mut wrapper, 16);
    context.set_latency_samples(48);
    context.finish(&mut wrapper);
    assert_eq!(
        wrapper.take_host_requests(),
        vec![
            HostRequest::VoiceCapacityChanged { capacity: 16 },
            HostRequest::LatencyChanged { samples: 48 },
        ]
    );
}

#[test]
fn init_voice_capacity_is_forwarded_at_once() {
    let mut wrapper = Wrapper::new(|_task: u32| {}, 8, 4);
    let context = WrapperInitContext::new();
    context.set_current_voice_capacity(&mut wrapper, 32);
    assert_eq!(
        wrapper.take_host_requests(),
        vec![HostRequest::VoiceCapacityChanged { capacity: 32 }]
    );
}

#[test]
fn init_execute_runs_the_task_synchronously_and_once() {
    let ran: Rc<RefCell<Vec<u32>>> = Rc::new(RefCell::new(Vec::new()));
    let log = Rc::clone(&ran);
    let mut wrapper = Wrapper::new(move |task: u32| log.borrow_mut().push(task), 8, 4);
    let context = WrapperInitContext::new();

    context.execute(&wrapper, 7);
    assert_eq!(*ran.borrow(), vec![7]);
    context.execute(&wrapper, 9);
    assert_eq!(*ran.borrow(), vec![7, 9]);

    // Nothing was queued for another thread, and nothing is owed to the host.
    assert_eq!(wrapper.next_background_task(), None);
    assert_eq!(wrapper.next_gui_task(), None);
    assert!(wrapper.take_host_requests().is_empty());
}
