//! The context bridge of an audio plugin: the three contexts through which plugin code reaches
//! its host while it is initialized, while it processes audio, and while its editor is open,
//! together with the shared state that all three act on.
//!
//! Every operation is a single synchronous step on state that the caller holds exclusively, so
//! each contract states the whole effect of the call. The exceptions are the two places where
//! something outside decides: whether the event queues can be borrowed, and what the task
//! executor does with a task. Work for another thread is handed over through bounded queues
//! that refuse an item instead of waiting.

pub mod event_queues;
pub mod events;
pub mod gesture;
pub mod gui_context;
pub mod init_context;
pub mod laws;
pub mod params;
pub mod process_context;
pub mod queue;
pub mod wrapper;
