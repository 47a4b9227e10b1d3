//! MIDI events with sample-accurate timing.
//!
//! Every constructor clamps its arguments into the ranges MIDI 1.0 allows:
//! seven-bit data values to `0..=127`, channels to `0..=15` and pitch bend to
//! `0..=16383`. Out-of-range arguments are never rejected.

use vstd::prelude::*;

verus! {

/// Largest seven-bit data value.
pub const MAX_DATA: u8 = 127;

/// Largest channel number.
pub const MAX_CHANNEL: u8 = 15;

/// Largest fourteen-bit pitch bend value.
pub const MAX_PITCH_BEND: u16 = 16383;

/// A MIDI event with sample-accurate timing.
#[derive(Debug, Clone, Copy, PartialEq, Eq)]
pub struct MidiEvent {
    /// Frame offset within the buffer about to be processed (0 = start).
    pub sample_offset: u32,
    /// The kind of event and its data.
    pub kind: MidiEventKind,
}

/// Kind and data of a MIDI event.
#[derive(Debug, Clone, Copy, PartialEq, Eq)]
#[allow(inconsistent_fields)]
pub enum MidiEventKind {
    /// Note On.
    NoteOn { note: u8, velocity: u8, channel: u8 },
    /// Note Off.
    NoteOff { note: u8, velocity: u8, channel: u8 },
    /// Control Change.
    ControlChange { controller: u8, value: u8, channel: u8 },
    /// Program Change.
    ProgramChange { program: u8, channel: u8 },
    /// Polyphonic (per-key) aftertouch.
    PolyphonicAftertouch { note: u8, pressure: u8, channel: u8 },
    /// Channel aftertouch.
    ChannelAftertouch { pressure: u8, channel: u8 },
    /// Pitch bend; 8192 is the centre.
    PitchBend { value: u16, channel: u8 },
    /// Timing Clock (system real-time).
    TimingClock,
    /// Start (system real-time).
    Start,
    /// Continue (system real-time).
    Continue,
    /// Stop (system real-time).
    Stop,
    /// Active Sensing (system real-time).
    ActiveSensing,
    /// System Reset (system real-time).
    SystemReset,
}

/// A seven-bit data value clamped into `0..=127`.
pub open spec fn clamp_data(value: u8) -> u8 {
    if value > 127 {
        127
    } else {
        value
    }
}

/// A channel number clamped into `0..=15`.
pub open spec fn clamp_channel(channel: u8) -> u8 {
    if channel > 15 {
        15
    } else {
        channel
    }
}

/// A pitch bend value clamped into `0..=16383`.
pub open spec fn clamp_pitch_bend(value: u16) -> u16 {
    if value > 16383 {
        16383
    } else {
        value
    }
}

fn data_in_range(value: u8) -> (clamped: u8)
    ensures
        clamped == clamp_data(value),
{
    if value > MAX_DATA {
        MAX_DATA
    } else {
        value
    }
}

fn channel_in_range(channel: u8) -> (clamped: u8)
    ensures
        clamped == clamp_channel(channel),
{
    if channel > MAX_CHANNEL {
        MAX_CHANNEL
    } else {
        channel
    }
}

fn pitch_bend_in_range(value: u16) -> (clamped: u16)
    ensures
        clamped == clamp_pitch_bend(value),
{
    if value > MAX_PITCH_BEND {
        MAX_PITCH_BEND
    } else {
        value
    }
}

impl MidiEventKind {
    /// Whether every field lies in the range MIDI 1.0 allows.
    pub open spec fn in_range(self) -> bool {
        match self {
            MidiEventKind::NoteOn { note, velocity, channel } => note <= 127 && velocity <= 127
                && channel <= 15,
            MidiEventKind::NoteOff { note, velocity, channel } => note <= 127 && velocity <= 127
                && channel <= 15,
            MidiEventKind::ControlChange { controller, value, channel } => controller <= 127
                && value <= 127 && channel <= 15,
            MidiEventKind::ProgramChange { program, channel } => program <= 127 && channel <= 15,
            MidiEventKind::PolyphonicAftertouch { note, pressure, channel } => note <= 127
                && pressure <= 127 && channel <= 15,
            MidiEventKind::ChannelAftertouch { pressure, channel } => pressure <= 127 && channel
                <= 15,
            MidiEventKind::PitchBend { value, channel } => value <= 16383 && channel <= 15,
            _ => true,
        }
    }
}

impl MidiEvent {
    /// Pitch bend value that leaves the pitch unchanged.
    pub const PITCH_BEND_CENTER: u16 = 8192;

    /// Whether every field of the event lies in the range MIDI 1.0 allows.
    pub open spec fn in_range(self) -> bool {
        self.kind.in_range()
    }

    /// A Note On event; `note` and `velocity` are clamped to 127, `channel`
    /// to 15.
    pub fn note_on(note: u8, velocity: u8, channel: u8, sample_offset: u32) -> (event: MidiEvent)
        ensures
            event == (MidiEvent {
                sample_offset,
                kind: MidiEventKind::NoteOn {
                    note: clamp_data(note),
                    velocity: clamp_data(velocity),
                    channel: clamp_channel(channel),
                },
            }),
            event.in_range(),
    {
        MidiEvent {
            sample_offset,
            kind: MidiEventKind::NoteOn {
                note: data_in_range(note),
                velocity: data_in_range(velocity),
                channel: channel_in_range(channel),
            },
        }
    }

    /// A Note Off event; `note` and `velocity` are clamped to 127, `channel`
    /// to 15.
    pub fn note_off(note: u8, velocity: u8, channel: u8, sample_offset: u32) -> (event: MidiEvent)
        ensures
            event == (MidiEvent {
                sample_offset,
                kind: MidiEventKind::NoteOff {
                    note: clamp_data(note),
                    velocity: clamp_data(velocity),
                    channel: clamp_channel(channel),
                },
            }),
            event.in_range(),
    {
        MidiEvent {
            sample_offset,
            kind: MidiEventKind::NoteOff {
                note: data_in_range(note),
                velocity: data_in_range(velocity),
                channel: channel_in_range(channel),
            },
        }
    }

    /// A Control Change event; `controller` and `value` are clamped to 127,
    /// `channel` to 15.
    pub fn control_change(controller: u8, value: u8, channel: u8, sample_offset: u32) -> (event:
        MidiEvent)
        ensures
            event == (MidiEvent {
                sample_offset,
                kind: MidiEventKind::ControlChange {
                    controller: clamp_data(controller),
                    value: clamp_data(value),
                    channel: clamp_channel(channel),
                },
            }),
            event.in_range(),
    {
        MidiEvent {
            sample_offset,
            kind: MidiEventKind::ControlChange {
                controller: data_in_range(controller),
                value: data_in_range(value),
                channel: channel_in_range(channel),
            },
        }
    }

    /// A Program Change event; `program` is clamped to 127, `channel` to 15.
    pub fn program_change(program: u8, channel: u8, sample_offset: u32) -> (event: MidiEvent)
        ensures
            event == (MidiEvent {
                sample_offset,
                kind: MidiEventKind::ProgramChange {
                    program: clamp_data(program),
                    channel: clamp_channel(channel),
                },
            }),
            event.in_range(),
    {
        MidiEvent {
            sample_offset,
            kind: MidiEventKind::ProgramChange {
                program: data_in_range(program),
                channel: channel_in_range(channel),
            },
        }
    }

    /// A Polyphonic Aftertouch event; `note` and `pressure` are clamped to
    /// 127, `channel` to 15.
    pub fn polyphonic_aftertouch(note: u8, pressure: u8, channel: u8, sample_offset: u32) -> (event:
        MidiEvent)
        ensures
            event == (MidiEvent {
                sample_offset,
                kind: MidiEventKind::PolyphonicAftertouch {
                    note: clamp_data(note),
                    pressure: clamp_data(pressure),
                    channel: clamp_channel(channel),
                },
            }),
            event.in_range(),
    {
        MidiEvent {
            sample_offset,
            kind: MidiEventKind::PolyphonicAftertouch {
                note: data_in_range(note),
                pressure: data_in_range(pressure),
                channel: channel_in_range(channel),
            },
        }
    }

    /// A Channel Aftertouch event; `pressure` is clamped to 127, `channel`
    /// to 15.
    pub fn channel_aftertouch(pressure: u8, channel: u8, sample_offset: u32) -> (event: MidiEvent)
        ensures
            event == (MidiEvent {
                sample_offset,
                kind: MidiEventKind::ChannelAftertouch {
                    pressure: clamp_data(pressure),
                    channel: clamp_channel(channel),
                },
            }),
            event.in_range(),
    {
        MidiEvent {
            sample_offset,
            kind: MidiEventKind::ChannelAftertouch {
                pressure: data_in_range(pressure),
                channel: channel_in_range(channel),
            },
        }
    }

    /// A Pitch Bend event; `value` is clamped to 16383, `channel` to 15.
    pub fn pitch_bend(value: u16, channel: u8, sample_offset: u32) -> (event: MidiEvent)
        ensures
            event == (MidiEvent {
                sample_offset,
                kind: MidiEventKind::PitchBend {
                    value: clamp_pitch_bend(value),
                    channel: clamp_channel(channel),
                },
            }),
            event.in_range(),
    {
        MidiEvent {
            sample_offset,
            kind: MidiEventKind::PitchBend {
                value: pitch_bend_in_range(value),
                channel: channel_in_range(channel),
            },
        }
    }

    /// A Pitch Bend event at the centre position (no bend).
    pub fn pitch_bend_center(channel: u8, sample_offset: u32) -> (event: MidiEvent)
        ensures
            event == (MidiEvent {
                sample_offset,
                kind: MidiEventKind::PitchBend { value: 8192, channel: clamp_channel(channel) },
            }),
            event.in_range(),
    {
        MidiEvent::pitch_bend(MidiEvent::PITCH_BEND_CENTER, channel, sample_offset)
    }

    /// A Timing Clock event.
    pub fn timing_clock(sample_offset: u32) -> (event: MidiEvent)
        ensures
            event == (MidiEvent { sample_offset, kind: MidiEventKind::TimingClock }),
    {
        MidiEvent { sample_offset, kind: MidiEventKind::TimingClock }
    }

    /// A Start event.
    pub fn start(sample_offset: u32) -> (event: MidiEvent)
        ensures
            event == (MidiEvent { sample_offset, kind: MidiEventKind::Start }),
    {
        MidiEvent { sample_offset, kind: MidiEventKind::Start }
    }

    /// A Continue event.
    pub fn continue_playback(sample_offset: u32) -> (event: MidiEvent)
        ensures
            event == (MidiEvent { sample_offset, kind: MidiEventKind::Continue }),
    {
        MidiEvent { sample_offset, kind: MidiEventKind::Continue }
    }

    /// A Stop event.
    pub fn stop(sample_offset: u32) -> (event: MidiEvent)
        ensures
            event == (MidiEvent { sample_offset, kind: MidiEventKind::Stop }),
    {
        MidiEvent { sample_offset, kind: MidiEventKind::Stop }
    }

    /// An Active Sensing event.
    pub fn active_sensing(sample_offset: u32) -> (event: MidiEvent)
        ensures
            event == (MidiEvent { sample_offset, kind: MidiEventKind::ActiveSensing }),
    {
        MidiEvent { sample_offset, kind: MidiEventKind::ActiveSensing }
    }

    /// A System Reset event.
    pub fn system_reset(sample_offset: u32) -> (event: MidiEvent)
        ensures
            event == (MidiEvent { sample_offset, kind: MidiEventKind::SystemReset }),
    {
        MidiEvent { sample_offset, kind: MidiEventKind::SystemReset }
    }
}

} // verus!
