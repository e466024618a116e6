//! The plain values that travel between plugin code, the contexts and the host.

use vstd::prelude::*;

verus! {

/// The plugin standard through which the host drives the plugin.
#[derive(Clone, Copy, Debug, PartialEq, Eq, Structural)]
pub enum PluginApi {
    Clap,
    Standalone,
    Vst3,
}

/// A note message with its sample offset (`timing`) inside the buffer being processed.
#[derive(Clone, Copy, Debug, PartialEq, Eq, Structural)]
pub enum NoteEvent {
    NoteOn { timing: u32, channel: u8, note: u8, velocity: u8 },
    NoteOff { timing: u32, channel: u8, note: u8, velocity: u8 },
    MidiCC { timing: u32, channel: u8, cc: u8, value: u8 },
}

/// The host's transport as it stood when a processing call began.
///
/// Tempo is carried as the bit pattern of a double-precision number, so that the snapshot
/// stays a value made of integers and flags.
#[derive(Clone, Copy, Debug, PartialEq, Eq, Structural)]
pub struct Transport {
    pub playing: bool,
    pub recording: bool,
    pub preroll_active: Option<bool>,
    pub sample_rate_hz: u32,
    pub tempo_bits: Option<u64>,
    pub time_sig_numerator: Option<i32>,
    pub time_sig_denominator: Option<i32>,
    pub pos_samples: Option<i64>,
}

/// A parameter change that waits in the outbox until the host is told about it.
///
/// `SetValue` keeps the two factors of the host's plain value apart: `normalized_bits` is the
/// bit pattern of the single-precision normalized value, and `step_scale` is the number it is
/// multiplied by, the parameter's step count or 1 for a continuous parameter. The product is
/// formed where the event leaves for the host.
#[derive(Clone, Copy, Debug, PartialEq, Eq, Structural)]
pub enum OutputParamEvent {
    BeginGesture { param_hash: u32 },
    SetValue { param_hash: u32, normalized_bits: u32, step_scale: usize },
    EndGesture { param_hash: u32 },
}

/// A notification that the shared state owes the host. They are kept in the order in which
/// they were raised until the host glue collects them.
#[derive(Clone, Copy, Debug, PartialEq, Eq, Structural)]
pub enum HostRequest {
    LatencyChanged { samples: u32 },
    VoiceCapacityChanged { capacity: u32 },
    Resize,
}

} // verus!

verus! {

/// The plugin's persisted state in its stored form.
#[derive(Debug, PartialEq, Eq)]
pub struct PluginState {
    pub data: Vec<u8>,
}

impl Clone for PluginState {
    fn clone(&self) -> (copy: Self)
        ensures
            copy@ == self@,
    {
        let data = self.data.clone();
        assert(data@ =~= self.data@);
        PluginState { data }
    }
}

impl View for PluginState {
    type V = Seq<u8>;

    open spec fn view(&self) -> Seq<u8> {
        self.data@
    }
}

} // verus!
