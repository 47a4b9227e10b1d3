//! Plain-value counterparts of what crosses the boundary to the native
//! AudioUnit runtime: handles, status codes, plugin records and MIDI events.

use crate::midi::{MidiEvent, MidiEventKind};
use crate::plugin_info::PluginType;
use smallvec::SmallVec;
use vstd::prelude::*;

verus! {

/// Status of a native call that succeeded.
pub const RACK_AU_OK: i32 = 0;

/// Status of a native call that failed for an unspecified reason.
pub const RACK_AU_ERROR_GENERIC: i32 = -1;

/// Status of a native call that did not find what it was asked for.
pub const RACK_AU_ERROR_NOT_FOUND: i32 = -2;

/// Status of a native call that was given an invalid argument.
pub const RACK_AU_ERROR_INVALID_PARAM: i32 = -3;

/// Status of a native call on a plugin that is not initialized.
pub const RACK_AU_ERROR_NOT_INITIALIZED: i32 = -4;

/// Statuses at or below this value are codes of the runtime itself.
pub const RACK_AU_ERROR_AUDIO_UNIT: i32 = -1000;

/// Declared size of the name and manufacturer fields of a plugin record.
pub const NAME_SIZE: usize = 256;

/// Declared size of the path field of a plugin record.
pub const PATH_SIZE: usize = 1024;

/// Declared size of the identifier field of a plugin record.
pub const UNIQUE_ID_SIZE: usize = 64;

/// Declared size of the unit label of a parameter.
pub const UNIT_SIZE: usize = 32;

/// Most events one batch may hold: its length then fits the native 32-bit
/// count, and its storage can be sized on every supported machine.
pub const MAX_BATCH_EVENTS: usize = 0x07ff_ffff;

/// Opaque handle of a native scanner; the address 0 is the null handle.
#[derive(Debug, Clone, Copy, PartialEq, Eq)]
pub struct RackAUScanner {
    pub address: usize,
}

/// Opaque handle of a native plugin instance; the address 0 is the null
/// handle.
#[derive(Debug, Clone, Copy, PartialEq, Eq)]
pub struct RackAUPlugin {
    pub address: usize,
}

/// Opaque handle of a native GUI; the address 0 is the null handle.
#[derive(Debug, Clone, Copy, PartialEq, Eq)]
pub struct RackAUGui {
    pub address: usize,
}

impl RackAUScanner {
    /// Whether this is the null handle.
    pub open spec fn null(&self) -> bool {
        self.address == 0
    }

    /// Whether this is the null handle.
    #[verifier::when_used_as_spec(null)]
    pub fn is_null(&self) -> (null: bool)
        ensures
            null == self.null(),
    {
        self.address == 0
    }
}

impl RackAUPlugin {
    /// Whether this is the null handle.
    pub open spec fn null(&self) -> bool {
        self.address == 0
    }

    /// Whether this is the null handle.
    #[verifier::when_used_as_spec(null)]
    pub fn is_null(&self) -> (null: bool)
        ensures
            null == self.null(),
    {
        self.address == 0
    }
}

impl RackAUGui {
    /// Whether this is the null handle.
    pub open spec fn null(&self) -> bool {
        self.address == 0
    }

    /// Whether this is the null handle.
    #[verifier::when_used_as_spec(null)]
    pub fn is_null(&self) -> (null: bool)
        ensures
            null == self.null(),
    {
        self.address == 0
    }
}

/// Kind of plugin as the native runtime reports it.
#[derive(Debug, Clone, Copy, PartialEq, Eq)]
pub enum RackAUPluginType {
    Effect,
    Instrument,
    Mixer,
    FormatConverter,
    Other,
}

impl RackAUPluginType {
    /// The kind as the rest of the host knows it.
    pub open spec fn plugin_type(&self) -> PluginType {
        match *self {
            RackAUPluginType::Effect => PluginType::Effect,
            RackAUPluginType::Instrument => PluginType::Instrument,
            RackAUPluginType::Mixer => PluginType::Mixer,
            RackAUPluginType::FormatConverter => PluginType::FormatConverter,
            RackAUPluginType::Other => PluginType::Other,
        }
    }

    /// The kind as the rest of the host knows it.
    #[verifier::when_used_as_spec(plugin_type)]
    pub fn to_plugin_type(&self) -> (kind: PluginType)
        ensures
            kind == self.plugin_type(),
    {
        match self {
            RackAUPluginType::Effect => PluginType::Effect,
            RackAUPluginType::Instrument => PluginType::Instrument,
            RackAUPluginType::Mixer => PluginType::Mixer,
            RackAUPluginType::FormatConverter => PluginType::FormatConverter,
            RackAUPluginType::Other => PluginType::Other,
        }
    }
}

/// One plugin record as the native scanner fills it in.
///
/// The text fields are the raw contents of fixed-size buffers. The native
/// side documents them as null-terminated; nothing here relies on that.
#[derive(Debug, Clone)]
pub struct RackAUPluginInfo {
    pub name: Vec<u8>,
    pub manufacturer: Vec<u8>,
    pub path: Vec<u8>,
    pub unique_id: Vec<u8>,
    pub version: u32,
    pub plugin_type: RackAUPluginType,
}

/// Kind of a MIDI message, identified by its status byte.
#[derive(Debug, Clone, Copy, PartialEq, Eq)]
pub enum RackAUMidiEventType {
    NoteOn,
    NoteOff,
    PolyphonicAftertouch,
    ControlChange,
    ProgramChange,
    ChannelAftertouch,
    PitchBend,
    SystemExclusive,
    TimeCode,
    SongPosition,
    SongSelect,
    TuneRequest,
    TimingClock,
    Start,
    Continue,
    Stop,
    ActiveSensing,
    SystemReset,
}

impl RackAUMidiEventType {
    /// The MIDI 1.0 status byte of the kind, with a zero channel nibble.
    pub open spec fn status(&self) -> u8 {
        match *self {
            RackAUMidiEventType::NoteOn => 0x90,
            RackAUMidiEventType::NoteOff => 0x80,
            RackAUMidiEventType::PolyphonicAftertouch => 0xA0,
            RackAUMidiEventType::ControlChange => 0xB0,
            RackAUMidiEventType::ProgramChange => 0xC0,
            RackAUMidiEventType::ChannelAftertouch => 0xD0,
            RackAUMidiEventType::PitchBend => 0xE0,
            RackAUMidiEventType::SystemExclusive => 0xF0,
            RackAUMidiEventType::TimeCode => 0xF1,
            RackAUMidiEventType::SongPosition => 0xF2,
            RackAUMidiEventType::SongSelect => 0xF3,
            RackAUMidiEventType::TuneRequest => 0xF6,
            RackAUMidiEventType::TimingClock => 0xF8,
            RackAUMidiEventType::Start => 0xFA,
            RackAUMidiEventType::Continue => 0xFB,
            RackAUMidiEventType::Stop => 0xFC,
            RackAUMidiEventType::ActiveSensing => 0xFE,
            RackAUMidiEventType::SystemReset => 0xFF,
        }
    }

    /// The MIDI 1.0 status byte of the kind, with a zero channel nibble.
    #[verifier::when_used_as_spec(status)]
    pub fn status_byte(&self) -> (byte: u8)
        ensures
            byte == self.status(),
    {
        match self {
            RackAUMidiEventType::NoteOn => 0x90,
            RackAUMidiEventType::NoteOff => 0x80,
            RackAUMidiEventType::PolyphonicAftertouch => 0xA0,
            RackAUMidiEventType::ControlChange => 0xB0,
            RackAUMidiEventType::ProgramChange => 0xC0,
            RackAUMidiEventType::ChannelAftertouch => 0xD0,
            RackAUMidiEventType::PitchBend => 0xE0,
            RackAUMidiEventType::SystemExclusive => 0xF0,
            RackAUMidiEventType::TimeCode => 0xF1,
            RackAUMidiEventType::SongPosition => 0xF2,
            RackAUMidiEventType::SongSelect => 0xF3,
            RackAUMidiEventType::TuneRequest => 0xF6,
            RackAUMidiEventType::TimingClock => 0xF8,
            RackAUMidiEventType::Start => 0xFA,
            RackAUMidiEventType::Continue => 0xFB,
            RackAUMidiEventType::Stop => 0xFC,
            RackAUMidiEventType::ActiveSensing => 0xFE,
            RackAUMidiEventType::SystemReset => 0xFF,
        }
    }
}

/// One MIDI event as the native runtime takes it.
#[derive(Debug, Clone, Copy, PartialEq, Eq)]
pub struct RackAUMidiEvent {
    pub sample_offset: u32,
    pub status: u8,
    pub data1: u8,
    pub data2: u8,
    pub channel: u8,
}

/// The kind of native message that carries `kind`.
pub open spec fn event_type(kind: MidiEventKind) -> RackAUMidiEventType {
    match kind {
        MidiEventKind::NoteOn { .. } => RackAUMidiEventType::NoteOn,
        MidiEventKind::NoteOff { .. } => RackAUMidiEventType::NoteOff,
        MidiEventKind::PolyphonicAftertouch { .. } => RackAUMidiEventType::PolyphonicAftertouch,
        MidiEventKind::ControlChange { .. } => RackAUMidiEventType::ControlChange,
        MidiEventKind::ProgramChange { .. } => RackAUMidiEventType::ProgramChange,
        MidiEventKind::ChannelAftertouch { .. } => RackAUMidiEventType::ChannelAftertouch,
        MidiEventKind::PitchBend { .. } => RackAUMidiEventType::PitchBend,
        MidiEventKind::TimingClock => RackAUMidiEventType::TimingClock,
        MidiEventKind::Start => RackAUMidiEventType::Start,
        MidiEventKind::Continue => RackAUMidiEventType::Continue,
        MidiEventKind::Stop => RackAUMidiEventType::Stop,
        MidiEventKind::ActiveSensing => RackAUMidiEventType::ActiveSensing,
        MidiEventKind::SystemReset => RackAUMidiEventType::SystemReset,
    }
}

/// The first data byte of the native message that carries `kind`.
///
/// Pitch bend splits its fourteen-bit value into two seven-bit bytes, least
/// significant first. System real-time messages carry no data.
pub open spec fn event_data1(kind: MidiEventKind) -> u8 {
    match kind {
        MidiEventKind::NoteOn { note, .. } => note,
        MidiEventKind::NoteOff { note, .. } => note,
        MidiEventKind::PolyphonicAftertouch { note, .. } => note,
        MidiEventKind::ControlChange { controller, .. } => controller,
        MidiEventKind::ProgramChange { program, .. } => program,
        MidiEventKind::ChannelAftertouch { pressure, .. } => pressure,
        MidiEventKind::PitchBend { value, .. } => (value % 128) as u8,
        _ => 0,
    }
}

/// The second data byte of the native message that carries `kind`.
///
/// Program change and channel aftertouch have one data byte only; their
/// second byte is 0.
pub open spec fn event_data2(kind: MidiEventKind) -> u8 {
    match kind {
        MidiEventKind::NoteOn { velocity, .. } => velocity,
        MidiEventKind::NoteOff { velocity, .. } => velocity,
        MidiEventKind::PolyphonicAftertouch { pressure, .. } => pressure,
        MidiEventKind::ControlChange { value, .. } => value,
        MidiEventKind::PitchBend { value, .. } => ((value / 128) % 128) as u8,
        _ => 0,
    }
}

/// The channel of the native message that carries `kind`; 0 for system
/// real-time messages, which have none.
pub open spec fn event_channel(kind: MidiEventKind) -> u8 {
    match kind {
        MidiEventKind::NoteOn { channel, .. } => channel,
        MidiEventKind::NoteOff { channel, .. } => channel,
        MidiEventKind::PolyphonicAftertouch { channel, .. } => channel,
        MidiEventKind::ControlChange { channel, .. } => channel,
        MidiEventKind::ProgramChange { channel, .. } => channel,
        MidiEventKind::ChannelAftertouch { channel, .. } => channel,
        MidiEventKind::PitchBend { channel, .. } => channel,
        _ => 0,
    }
}

/// The native form of `event`.
pub open spec fn wire_event(event: MidiEvent) -> RackAUMidiEvent {
    RackAUMidiEvent {
        sample_offset: event.sample_offset,
        status: event_type(event.kind).status(),
        data1: event_data1(event.kind),
        data2: event_data2(event.kind),
        channel: event_channel(event.kind),
    }
}

/// The native forms of `events`, in order.
pub open spec fn wire_events(events: Seq<MidiEvent>) -> Seq<RackAUMidiEvent> {
    events.map_values(|event: MidiEvent| wire_event(event))
}

impl RackAUMidiEvent {
    /// Encodes an event in its native form.
    pub fn from_event(event: &MidiEvent) -> (wire: RackAUMidiEvent)
        ensures
            wire == wire_event(*event),
    {
        let (kind, data1, data2, channel): (RackAUMidiEventType, u8, u8, u8) = match event.kind {
            MidiEventKind::NoteOn { note, velocity, channel } => (
                RackAUMidiEventType::NoteOn,
                note,
                velocity,
                channel,
            ),
            MidiEventKind::NoteOff { note, velocity, channel } => (
                RackAUMidiEventType::NoteOff,
                note,
                velocity,
                channel,
            ),
            MidiEventKind::PolyphonicAftertouch { note, pressure, channel } => (
                RackAUMidiEventType::PolyphonicAftertouch,
                note,
                pressure,
                channel,
            ),
            MidiEventKind::ControlChange { controller, value, channel } => (
                RackAUMidiEventType::ControlChange,
                controller,
                value,
                channel,
            ),
            MidiEventKind::ProgramChange { program, channel } => (
                RackAUMidiEventType::ProgramChange,
                program,
                0,
                channel,
            ),
            MidiEventKind::ChannelAftertouch { pressure, channel } => (
                RackAUMidiEventType::ChannelAftertouch,
                pressure,
                0,
                channel,
            ),
            MidiEventKind::PitchBend { value, channel } => {
                let low: u16 = value & 0x7F;
                let high: u16 = (value >> 7) & 0x7F;
                assert(value & 0x7F == value % 128) by (bit_vector);
                assert((value >> 7) & 0x7F == (value / 128) % 128) by (bit_vector);
                (RackAUMidiEventType::PitchBend, low as u8, high as u8, channel)
            },
            MidiEventKind::TimingClock => (RackAUMidiEventType::TimingClock, 0, 0, 0),
            MidiEventKind::Start => (RackAUMidiEventType::Start, 0, 0, 0),
            MidiEventKind::Continue => (RackAUMidiEventType::Continue, 0, 0, 0),
            MidiEventKind::Stop => (RackAUMidiEventType::Stop, 0, 0, 0),
            MidiEventKind::ActiveSensing => (RackAUMidiEventType::ActiveSensing, 0, 0, 0),
            MidiEventKind::SystemReset => (RackAUMidiEventType::SystemReset, 0, 0, 0),
        };
        RackAUMidiEvent {
            sample_offset: event.sample_offset,
            status: kind.status_byte(),
            data1,
            data2,
            channel,
        }
    }
}

/// A pitch bend in range is the sum of its two data bytes, the second
/// weighted by 128; each byte fits in seven bits.
pub proof fn lemma_pitch_bend_split(value: u16, channel: u8)
    requires
        value <= 16383,
    ensures
        event_data1(MidiEventKind::PitchBend { value, channel }) <= 127,
        event_data2(MidiEventKind::PitchBend { value, channel }) <= 127,
        event_data1(MidiEventKind::PitchBend { value, channel }) + 128 * event_data2(
            MidiEventKind::PitchBend { value, channel },
        ) == value,
{
}

/// The native form of an event in range has seven-bit data bytes and a
/// four-bit channel.
pub proof fn lemma_wire_in_range(event: MidiEvent)
    requires
        event.in_range(),
    ensures
        wire_event(event).data1 <= 127,
        wire_event(event).data2 <= 127,
        wire_event(event).channel <= 15,
        wire_event(event).status >= 0x80,
{
}

/// A batch of native MIDI events, ready to be handed over as one array.
///
/// The storage is a `smallvec::SmallVec` with room for sixteen events
/// inline, so that a typical burst of events (a chord, a handful of
/// controller changes) never allocates; only larger batches spill to the
/// heap. The proofs know what a batch holds through [`batch_events`] alone.
#[verifier::external_body]
pub struct MidiBatch {
    events: SmallVec<[RackAUMidiEvent; 16]>,
}

/// The events a batch holds, in order.
pub uninterp spec fn batch_events(batch: MidiBatch) -> Seq<RackAUMidiEvent>;

impl View for MidiBatch {
    type V = Seq<RackAUMidiEvent>;

    open spec fn view(&self) -> Seq<RackAUMidiEvent> {
        batch_events(*self)
    }
}

/// `SmallVec::new`: the new vector holds no item.
#[verifier::external_body]
fn batch_new() -> (batch: MidiBatch)
    ensures
        batch_events(batch) == Seq::<RackAUMidiEvent>::empty(),
{
    MidiBatch { events: SmallVec::new() }
}

/// `SmallVec::push`: the item is appended behind the items already held.
/// The length is bounded because `push` panics when the capacity it grows
/// to, the next power of two, cannot be expressed in bytes.
#[verifier::external_body]
fn batch_push(batch: &mut MidiBatch, event: RackAUMidiEvent)
    requires
        batch_events(*old(batch)).len() < MAX_BATCH_EVENTS,
    ensures
        batch_events(*final(batch)) == batch_events(*old(batch)).push(event),
{
    batch.events.push(event)
}

/// `SmallVec::as_slice`: the items held, in order.
#[verifier::external_body]
fn batch_slice(batch: &MidiBatch) -> (events: &[RackAUMidiEvent])
    ensures
        events@ == batch_events(*batch),
{
    batch.events.as_slice()
}

impl MidiBatch {
    /// An empty batch.
    pub fn new() -> (batch: MidiBatch)
        ensures
            batch@ == Seq::<RackAUMidiEvent>::empty(),
    {
        batch_new()
    }

    /// The events of the batch, in order.
    pub fn events(&self) -> (events: &[RackAUMidiEvent])
        ensures
            events@ == self@,
    {
        batch_slice(self)
    }

    /// The number of events in the batch.
    pub fn len(&self) -> (len: usize)
        ensures
            len == self@.len(),
    {
        batch_slice(self).len()
    }

    /// Whether the batch holds no event.
    pub fn is_empty(&self) -> (empty: bool)
        ensures
            empty == (self@.len() == 0),
    {
        batch_slice(self).len() == 0
    }

    /// Encodes `events` into one batch, one native event per event, in
    /// their order.
    ///
    /// Returns `None` when there are more than [`MAX_BATCH_EVENTS`] events.
    pub fn encode(events: &[MidiEvent]) -> (batch: Option<MidiBatch>)
        ensures
            events@.len() <= MAX_BATCH_EVENTS ==> (batch matches Some(b) && b@ == wire_events(
                events@,
            )),
            events@.len() > MAX_BATCH_EVENTS ==> batch is None,
    {
        if events.len() > MAX_BATCH_EVENTS {
            return None;
        }
        let mut batch = batch_new();
        let mut i: usize = 0;
        while i < events.len()
            invariant
                i <= events@.len() <= MAX_BATCH_EVENTS,
                batch@ == wire_events(events@.take(i as int)),
            decreases events@.len() - i,
        {
            let wire = RackAUMidiEvent::from_event(&events[i]);
            batch_push(&mut batch, wire);
            assert(events@.take(i + 1) == events@.take(i as int).push(events@[i as int]));
            i = i + 1;
        }
        assert(events@.take(i as int) == events@);
        Some(batch)
    }
}

} // verus!
