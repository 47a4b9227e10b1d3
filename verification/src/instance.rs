//! The lifecycle of one plugin instance, independent of the plugin format.
//!
//! An instance is created around a live native handle and starts out
//! uninitialized. Initialization fixes the maximum block size and the
//! channel counts the native layer negotiated, and sizes the two pointer
//! tables handed to the render call. Every other operation is refused until
//! then.
//!
//! Each operation is split around the native call it needs: the function
//! named after the operation validates the request and marshals its
//! arguments, and a `_reply` function (or
//! [`check_status`](crate::au::util::check_status) where a status is all
//! there is) interprets what the native layer answered.
//!
//! The state is the same for every format. Where formats differ, in a
//! message or in the reading of a reply, the caller names the format: an
//! [`AudioUnitPlugin`](crate::au::AudioUnitPlugin) always `AudioUnit`, a
//! [`Vst3Plugin`](crate::vst3::Vst3Plugin) always `Vst3`.

use crate::au::ffi::{
    wire_event, wire_events, MidiBatch, RackAUMidiEvent, MAX_BATCH_EVENTS,
    RACK_AU_ERROR_INVALID_PARAM,
};
use crate::au::util::{
    c_array_text, c_array_to_string, map_error, map_error_at, map_error_at_spec, map_error_spec,
};
use crate::error::{outcome_is, viewed_outcome_is, Error, ErrorView};
use crate::midi::MidiEvent;
use crate::plugin_info::{
    ParameterInfo, ParameterInfoView, PluginInfo, PluginInfoView, PluginType, PresetInfo,
    PresetInfoView,
};
use crate::text::{c_string, decimal, has_nul, push_decimal, to_c_string};
use vstd::prelude::*;
use vstd::string::*;

verus! {

/// The plugin technology an instance belongs to.
#[derive(Debug, Clone, Copy, PartialEq, Eq)]
pub enum PluginFormat {
    AudioUnit,
    Vst3,
}

/// One channel of planar audio: where its samples start and how many there
/// are.
#[derive(Debug, Clone, Copy, PartialEq, Eq)]
pub struct ChannelBuffer {
    /// Address of the first sample.
    pub address: usize,
    /// Number of samples in the buffer.
    pub len: usize,
}

/// The arguments of one native render call, next to the two pointer tables.
#[derive(Debug, Clone, Copy, PartialEq, Eq)]
pub struct ProcessCall {
    pub num_input_channels: u32,
    pub num_output_channels: u32,
    pub frames: u32,
}

/// Mathematical view of an instance.
pub struct InstanceView {
    /// Address of the native handle.
    pub handle: usize,
    /// The descriptor the instance was created from.
    pub info: PluginInfoView,
    /// The technology of the plugin.
    pub format: PluginFormat,
    /// Whether the instance has been initialized.
    pub initialized: bool,
    /// Largest frame count one render call may ask for.
    pub max_block_size: usize,
    /// Table of input channel addresses handed to the render call: one
    /// slot per negotiated input channel.
    pub input_ptrs: Seq<usize>,
    /// Table of output channel addresses handed to the render call: one
    /// slot per negotiated output channel.
    pub output_ptrs: Seq<usize>,
}

impl InstanceView {
    /// Negotiated number of input channels.
    pub open spec fn input_channels(self) -> nat {
        self.input_ptrs.len()
    }

    /// Negotiated number of output channels.
    pub open spec fn output_channels(self) -> nat {
        self.output_ptrs.len()
    }

    /// The invariant of every instance: a live handle, a block size and
    /// channel counts that the native layer can take, and nothing
    /// negotiated before initialization.
    pub open spec fn wf(self) -> bool {
        &&& self.handle != 0
        &&& self.max_block_size <= u32::MAX
        &&& self.input_channels() <= i32::MAX
        &&& self.output_channels() <= i32::MAX
        &&& !self.initialized ==> self.max_block_size == 0 && self.input_channels() == 0
            && self.output_channels() == 0
    }
}

/// The lifecycle state of one plugin instance.
///
/// The state holds no format: the type that wraps it knows its format and
/// names it in every call.
pub struct PluginCore {
    handle: usize,
    info: PluginInfo,
    initialized: bool,
    max_block_size: usize,
    input_ptrs: Vec<usize>,
    output_ptrs: Vec<usize>,
}

impl PluginCore {
    /// The view of the state as an instance of the given format.
    pub closed spec fn view_as(&self, format: PluginFormat) -> InstanceView {
        InstanceView {
            handle: self.handle,
            info: self.info@,
            format,
            initialized: self.initialized,
            max_block_size: self.max_block_size,
            input_ptrs: self.input_ptrs@,
            output_ptrs: self.output_ptrs@,
        }
    }
}

/// Whether `produced` is the state or the error that `expected` calls for,
/// the state seen as an instance of `format`.
pub open spec fn core_outcome_is(
    produced: Result<PluginCore, Error>,
    format: PluginFormat,
    expected: Result<InstanceView, ErrorView>,
) -> bool {
    match produced {
        Ok(core) => expected == Ok::<InstanceView, ErrorView>(core.view_as(format)),
        Err(error) => expected == Err::<InstanceView, ErrorView>(error@),
    }
}

/// The name of a format as it appears in messages.
pub open spec fn format_label(format: PluginFormat) -> Seq<char> {
    match format {
        PluginFormat::AudioUnit => "AudioUnit"@,
        PluginFormat::Vst3 => "VST3"@,
    }
}

/// The message for a descriptor that no live instance could be made from.
pub open spec fn not_found_message(format: PluginFormat, name: Seq<char>) -> Seq<char> {
    "Failed to create "@ + format_label(format) + " instance for "@ + name
}

/// Why a descriptor cannot be handed to the native layer, if it cannot.
///
/// An AudioUnit is resolved by its identifier alone; a VST3 plugin also by
/// its path. Neither may hold a zero byte.
pub open spec fn load_obstacle(format: PluginFormat, info: PluginInfoView) -> Option<ErrorView> {
    if format == PluginFormat::Vst3 && c_string(info.path) is None {
        Some(ErrorView::Other("Plugin path contains null byte"@))
    } else if c_string(info.unique_id) is None {
        Some(ErrorView::Other("Invalid unique_id (contains null byte)"@))
    } else {
        None
    }
}

/// The identifier of a plugin as the native layer takes it: a C string.
pub open spec fn unique_id_request(info: PluginInfoView) -> Result<Seq<u8>, ErrorView> {
    match c_string(info.unique_id) {
        None => Err(ErrorView::Other("Invalid unique_id (contains null byte)"@)),
        Some(bytes) => Ok(bytes),
    }
}

/// The path of a plugin as the native layer takes it: a C string.
pub open spec fn path_request(info: PluginInfoView) -> Result<Seq<u8>, ErrorView> {
    match c_string(info.path) {
        None => Err(ErrorView::Other("Plugin path contains null byte"@)),
        Some(bytes) => Ok(bytes),
    }
}

/// The instance that comes of a descriptor and the handle the native layer
/// returned for it.
pub open spec fn creation(format: PluginFormat, info: PluginInfoView, handle: usize) -> Result<
    InstanceView,
    ErrorView,
> {
    if load_obstacle(format, info) is Some {
        Err(load_obstacle(format, info)->Some_0)
    } else if handle == 0 {
        Err(ErrorView::PluginNotFound(not_found_message(format, info.name)))
    } else {
        Ok(
            InstanceView {
                handle,
                info,
                format,
                initialized: false,
                max_block_size: 0,
                input_ptrs: Seq::empty(),
                output_ptrs: Seq::empty(),
            },
        )
    }
}

/// The outcome of asking to initialize with a maximum block size: the block
/// size as the native layer takes it.
pub open spec fn initialize_request(max_block_size: usize) -> Result<u32, ErrorView> {
    if max_block_size > u32::MAX {
        Err(ErrorView::Other("Maximum block size exceeds the native limit"@))
    } else {
        Ok(max_block_size as u32)
    }
}

/// The outcome of an initialization, given the status of the native call
/// and the channel counts queried after it.
pub open spec fn initialize_outcome(
    max_block_size: usize,
    status: i32,
    input_channels: i32,
    output_channels: i32,
) -> Result<(), ErrorView> {
    if max_block_size > u32::MAX {
        Err(ErrorView::Other("Maximum block size exceeds the native limit"@))
    } else if status != 0 {
        Err(map_error_spec(status))
    } else if input_channels < 0 || output_channels < 0 {
        Err(ErrorView::Other("Failed to query channel configuration"@))
    } else {
        Ok(())
    }
}

/// The state after an initialization: on success the block size and the
/// channel counts are fixed and both pointer tables hold one null slot per
/// channel; on failure nothing changes.
pub open spec fn initialize_state(
    before: InstanceView,
    max_block_size: usize,
    status: i32,
    input_channels: i32,
    output_channels: i32,
) -> InstanceView {
    if initialize_outcome(max_block_size, status, input_channels, output_channels) is Ok {
        InstanceView {
            initialized: true,
            max_block_size,
            input_ptrs: Seq::new(input_channels as nat, |i: int| 0usize),
            output_ptrs: Seq::new(output_channels as nat, |i: int| 0usize),
            ..before
        }
    } else {
        before
    }
}

/// Initializing twice with the same replies leaves the instance as
/// initializing once does.
pub proof fn lemma_initialize_idempotent(
    before: InstanceView,
    max_block_size: usize,
    status: i32,
    input_channels: i32,
    output_channels: i32,
)
    ensures
        initialize_state(
            initialize_state(before, max_block_size, status, input_channels, output_channels),
            max_block_size,
            status,
            input_channels,
            output_channels,
        ) == initialize_state(before, max_block_size, status, input_channels, output_channels),
{
}

/// A successful initialization leaves an initialized instance that meets
/// the invariant, with pointer tables of one slot per negotiated channel.
pub proof fn lemma_initialize_success(
    before: InstanceView,
    max_block_size: usize,
    status: i32,
    input_channels: i32,
    output_channels: i32,
)
    requires
        before.wf(),
        initialize_outcome(max_block_size, status, input_channels, output_channels) is Ok,
    ensures
        ({
            let after = initialize_state(
                before,
                max_block_size,
                status,
                input_channels,
                output_channels,
            );
            &&& after.wf()
            &&& after.initialized
            &&& after.max_block_size == max_block_size
            &&& after.input_channels() == input_channels
            &&& after.output_channels() == output_channels
            &&& after.handle == before.handle
            &&& after.info == before.info
        }),
{
}

/// The outcome of a request that needs nothing but an initialized
/// instance.
pub open spec fn ready(state: InstanceView) -> Result<(), ErrorView> {
    if state.initialized {
        Ok(())
    } else {
        Err(ErrorView::NotInitialized)
    }
}

/// The position of the first buffer of `buffers`, at or after `from`, that
/// holds fewer than `frames` samples, or the length of `buffers` when there
/// is none.
pub open spec fn short_position(buffers: Seq<ChannelBuffer>, frames: usize, from: int) -> int
    decreases buffers.len() - from,
{
    if from < 0 || from >= buffers.len() {
        buffers.len() as int
    } else if buffers[from].len < frames {
        from
    } else {
        short_position(buffers, frames, from + 1)
    }
}

/// The position of the first buffer that holds fewer than `frames` samples,
/// or the length of `buffers` when every buffer is long enough.
pub open spec fn first_short(buffers: Seq<ChannelBuffer>, frames: usize) -> int {
    short_position(buffers, frames, 0)
}

/// The addresses of `buffers`, in order.
pub open spec fn addresses(buffers: Seq<ChannelBuffer>) -> Seq<usize> {
    buffers.map_values(|buffer: ChannelBuffer| buffer.address)
}

/// The message for a render call with the wrong number of channels.
pub open spec fn channel_mismatch_message(direction: Seq<char>, expected: nat, got: nat) -> Seq<
    char,
> {
    direction + " channel count mismatch: plugin expects "@ + decimal(expected) + ", got "@
        + decimal(got)
}

/// The message for a channel buffer that is shorter than the frame count.
pub open spec fn short_buffer_message(direction: Seq<char>, index: nat, len: nat, frames: nat)
    -> Seq<char> {
    direction + " channel "@ + decimal(index) + " has "@ + decimal(len)
        + " samples, need at least "@ + decimal(frames)
}

/// The message for a frame count above the maximum block size.
pub open spec fn block_size_message(frames: nat, max_block_size: nat) -> Seq<char> {
    "Frame count "@ + decimal(frames) + " exceeds maximum block size "@ + decimal(max_block_size)
}

/// The verdict on a render request. The checks are made in this order, and
/// the first that fails decides:
///
/// 1. the instance is initialized;
/// 2. there are exactly as many input buffers as negotiated input channels,
///    and as many output buffers as negotiated output channels;
/// 3. neither list is empty;
/// 4. every input buffer, then every output buffer, holds at least
///    `num_frames` samples;
/// 5. `num_frames` does not exceed the maximum block size.
pub open spec fn process_verdict(
    state: InstanceView,
    inputs: Seq<ChannelBuffer>,
    outputs: Seq<ChannelBuffer>,
    num_frames: usize,
) -> Result<ProcessCall, ErrorView> {
    let short_input = first_short(inputs, num_frames);
    let short_output = first_short(outputs, num_frames);
    if !state.initialized {
        Err(ErrorView::NotInitialized)
    } else if inputs.len() != state.input_channels() {
        Err(
            ErrorView::Other(
                channel_mismatch_message("Input"@, state.input_channels(), inputs.len()),
            ),
        )
    } else if outputs.len() != state.output_channels() {
        Err(
            ErrorView::Other(
                channel_mismatch_message("Output"@, state.output_channels(), outputs.len()),
            ),
        )
    } else if inputs.len() == 0 || outputs.len() == 0 {
        Err(ErrorView::Other("Empty input or output channels"@))
    } else if short_input < inputs.len() {
        Err(
            ErrorView::Other(
                short_buffer_message(
                    "Input"@,
                    short_input as nat,
                    inputs[short_input].len as nat,
                    num_frames as nat,
                ),
            ),
        )
    } else if short_output < outputs.len() {
        Err(
            ErrorView::Other(
                short_buffer_message(
                    "Output"@,
                    short_output as nat,
                    outputs[short_output].len as nat,
                    num_frames as nat,
                ),
            ),
        )
    } else if num_frames > state.max_block_size {
        Err(
            ErrorView::Other(
                block_size_message(num_frames as nat, state.max_block_size as nat),
            ),
        )
    } else {
        Ok(
            ProcessCall {
                num_input_channels: inputs.len() as u32,
                num_output_channels: outputs.len() as u32,
                frames: num_frames as u32,
            },
        )
    }
}

/// The state after a render request: an accepted request refreshes both
/// pointer tables with the addresses of the buffers; a refused one changes
/// nothing.
pub open spec fn process_state(
    before: InstanceView,
    inputs: Seq<ChannelBuffer>,
    outputs: Seq<ChannelBuffer>,
    num_frames: usize,
) -> InstanceView {
    if process_verdict(before, inputs, outputs, num_frames) is Ok {
        InstanceView { input_ptrs: addresses(inputs), output_ptrs: addresses(outputs), ..before }
    } else {
        before
    }
}

/// The first short buffer lies within the list or at its end, it is short,
/// and no buffer before it is.
pub proof fn lemma_short_position(buffers: Seq<ChannelBuffer>, frames: usize, from: int)
    requires
        0 <= from <= buffers.len(),
    ensures
        from <= short_position(buffers, frames, from) <= buffers.len(),
        short_position(buffers, frames, from) < buffers.len() ==> buffers[short_position(
            buffers,
            frames,
            from,
        )].len < frames,
        forall|i: int|
            from <= i < short_position(buffers, frames, from) ==> buffers[i].len >= frames,
    decreases buffers.len() - from,
{
    if from < buffers.len() && buffers[from].len >= frames {
        lemma_short_position(buffers, frames, from + 1);
    }
}

/// A render request with a channel count other than the negotiated one is
/// refused, whether it has fewer channels or more.
pub proof fn lemma_process_rejects_channel_mismatch(
    state: InstanceView,
    inputs: Seq<ChannelBuffer>,
    outputs: Seq<ChannelBuffer>,
    num_frames: usize,
)
    requires
        inputs.len() != state.input_channels() || outputs.len() != state.output_channels(),
    ensures
        process_verdict(state, inputs, outputs, num_frames) is Err,
        process_state(state, inputs, outputs, num_frames) == state,
{
}

/// A render request in which any channel buffer holds fewer samples than
/// the frame count is refused.
pub proof fn lemma_process_rejects_short_buffer(
    state: InstanceView,
    inputs: Seq<ChannelBuffer>,
    outputs: Seq<ChannelBuffer>,
    num_frames: usize,
    channel: int,
)
    requires
        (0 <= channel < inputs.len() && inputs[channel].len < num_frames) || (0 <= channel
            < outputs.len() && outputs[channel].len < num_frames),
    ensures
        process_verdict(state, inputs, outputs, num_frames) is Err,
        process_state(state, inputs, outputs, num_frames) == state,
{
    lemma_short_position(inputs, num_frames, 0);
    lemma_short_position(outputs, num_frames, 0);
}

/// An accepted render request has the negotiated channel counts, at least
/// one channel in each direction, buffers of at least `num_frames` samples
/// throughout, and a frame count within the maximum block size.
pub proof fn lemma_process_accepts(
    state: InstanceView,
    inputs: Seq<ChannelBuffer>,
    outputs: Seq<ChannelBuffer>,
    num_frames: usize,
)
    requires
        state.wf(),
        process_verdict(state, inputs, outputs, num_frames) is Ok,
    ensures
        state.initialized,
        inputs.len() == state.input_channels(),
        outputs.len() == state.output_channels(),
        inputs.len() > 0 && outputs.len() > 0,
        forall|i: int| 0 <= i < inputs.len() ==> inputs[i].len >= num_frames,
        forall|i: int| 0 <= i < outputs.len() ==> outputs[i].len >= num_frames,
        num_frames <= state.max_block_size,
        process_verdict(state, inputs, outputs, num_frames) == Ok::<ProcessCall, ErrorView>(
            ProcessCall {
                num_input_channels: state.input_channels() as u32,
                num_output_channels: state.output_channels() as u32,
                frames: num_frames as u32,
            },
        ),
        process_state(state, inputs, outputs, num_frames).wf(),
{
    lemma_short_position(inputs, num_frames, 0);
    lemma_short_position(outputs, num_frames, 0);
}

fn find_short(buffers: &[ChannelBuffer], frames: usize) -> (position: usize)
    ensures
        position == first_short(buffers@, frames),
        position <= buffers@.len(),
{
    let mut i: usize = 0;
    while i < buffers.len() && buffers[i].len >= frames
        invariant
            i <= buffers@.len(),
            short_position(buffers@, frames, 0) == short_position(buffers@, frames, i as int),
        decreases buffers@.len() - i,
    {
        i = i + 1;
    }
    i
}

fn channel_mismatch_error(direction: &str, expected: usize, got: usize) -> (error: Error)
    ensures
        error@ == ErrorView::Other(
            channel_mismatch_message(direction@, expected as nat, got as nat),
        ),
{
    let mut message = String::from_str(direction);
    message.append(" channel count mismatch: plugin expects ");
    push_decimal(&mut message, expected);
    message.append(", got ");
    push_decimal(&mut message, got);
    Error::Other(message)
}

fn short_buffer_error(direction: &str, index: usize, len: usize, frames: usize) -> (error: Error)
    ensures
        error@ == ErrorView::Other(
            short_buffer_message(direction@, index as nat, len as nat, frames as nat),
        ),
{
    let mut message = String::from_str(direction);
    message.append(" channel ");
    push_decimal(&mut message, index);
    message.append(" has ");
    push_decimal(&mut message, len);
    message.append(" samples, need at least ");
    push_decimal(&mut message, frames);
    Error::Other(message)
}

fn block_size_error(frames: usize, max_block_size: usize) -> (error: Error)
    ensures
        error@ == ErrorView::Other(block_size_message(frames as nat, max_block_size as nat)),
{
    let mut message = String::from_str("Frame count ");
    push_decimal(&mut message, frames);
    message.append(" exceeds maximum block size ");
    push_decimal(&mut message, max_block_size);
    Error::Other(message)
}

fn null_table(slots: usize) -> (table: Vec<usize>)
    ensures
        table@ == Seq::new(slots as nat, |i: int| 0usize),
{
    let capacity: usize = if slots > 8 {
        slots
    } else {
        8
    };
    let mut table: Vec<usize> = Vec::with_capacity(capacity);
    let mut i: usize = 0;
    while i < slots
        invariant
            i <= slots,
            table@ == Seq::new(i as nat, |i: int| 0usize),
        decreases slots - i,
    {
        table.push(0);
        i = i + 1;
    }
    table
}

fn refresh(table: &mut Vec<usize>, buffers: &[ChannelBuffer])
    requires
        old(table)@.len() == buffers@.len(),
    ensures
        final(table)@ == addresses(buffers@),
{
    let mut i: usize = 0;
    while i < buffers.len()
        invariant
            i <= buffers@.len(),
            table@.len() == buffers@.len(),
            forall|j: int| 0 <= j < i ==> table@[j] == buffers@[j].address,
        decreases buffers@.len() - i,
    {
        table.set(i, buffers[i].address);
        i = i + 1;
    }
    assert(table@ =~= addresses(buffers@));
}

/// Marshals the identifier of a plugin for the native layer.
pub fn marshal_unique_id(info: &PluginInfo) -> (request: Result<Vec<u8>, Error>)
    ensures
        viewed_outcome_is(request, unique_id_request(info@)),
{
    match to_c_string(info.unique_id.as_str()) {
        Some(bytes) => Ok(bytes),
        None => Err(Error::Other(String::from_str("Invalid unique_id (contains null byte)"))),
    }
}

/// Marshals the path of a plugin for the native layer.
pub fn marshal_path(info: &PluginInfo) -> (request: Result<Vec<u8>, Error>)
    ensures
        viewed_outcome_is(request, path_request(info@)),
{
    match to_c_string(info.path.as_str()) {
        Some(bytes) => Ok(bytes),
        None => Err(Error::Other(String::from_str("Plugin path contains null byte"))),
    }
}

impl PluginCore {
    #[verifier::type_invariant]
    spec fn well_formed(self) -> bool {
        self.view_as(PluginFormat::AudioUnit).wf()
    }

    /// Creates the instance for `info` around the handle the native layer
    /// returned; a null handle means the plugin was not found.
    pub fn new(format: PluginFormat, info: &PluginInfo, handle: usize) -> (instance: Result<
        PluginCore,
        Error,
    >)
        ensures
            core_outcome_is(instance, format, creation(format, info@, handle)),
            instance matches Ok(created) ==> created.view_as(format).wf(),
    {
        match format {
            PluginFormat::Vst3 => {
                if has_nul(info.path.as_str()) {
                    return Err(Error::Other(String::from_str("Plugin path contains null byte")));
                }
            },
            PluginFormat::AudioUnit => {},
        }
        if has_nul(info.unique_id.as_str()) {
            return Err(Error::Other(String::from_str("Invalid unique_id (contains null byte)")));
        }
        if handle == 0 {
            let mut message = String::from_str("Failed to create ");
            match format {
                PluginFormat::AudioUnit => message.append("AudioUnit"),
                PluginFormat::Vst3 => message.append("VST3"),
            }
            message.append(" instance for ");
            message.append(info.name.as_str());
            return Err(Error::PluginNotFound(message));
        }
        Ok(
            PluginCore {
                handle,
                info: info.duplicate(),
                initialized: false,
                max_block_size: 0,
                input_ptrs: Vec::new(),
                output_ptrs: Vec::new(),
            },
        )
    }

    /// Address of the native handle; never null.
    pub fn handle(&self, format: PluginFormat) -> (handle: usize)
        ensures
            handle == self.view_as(format).handle,
            handle != 0,
    {
        proof {
            use_type_invariant(self);
        }
        self.handle
    }

    /// The descriptor the instance was created from.
    pub fn info(&self, format: PluginFormat) -> (info: &PluginInfo)
        ensures
            info@ == self.view_as(format).info,
    {
        &self.info
    }

    /// Whether the instance has been initialized.
    pub fn is_initialized(&self, format: PluginFormat) -> (initialized: bool)
        ensures
            initialized == self.view_as(format).initialized,
            self.view_as(format).format == format,
            self.view_as(format).wf(),
    {
        proof {
            use_type_invariant(self);
        }
        self.initialized
    }

    /// Largest frame count one render call may ask for; 0 before
    /// initialization.
    pub fn max_block_size(&self, format: PluginFormat) -> (frames: usize)
        ensures
            frames == self.view_as(format).max_block_size,
    {
        self.max_block_size
    }

    /// Negotiated number of input channels; 0 before initialization.
    pub fn input_channels(&self, format: PluginFormat) -> (channels: usize)
        ensures
            channels == self.view_as(format).input_channels(),
    {
        self.input_ptrs.len()
    }

    /// Negotiated number of output channels; 0 before initialization.
    pub fn output_channels(&self, format: PluginFormat) -> (channels: usize)
        ensures
            channels == self.view_as(format).output_channels(),
    {
        self.output_ptrs.len()
    }

    /// The table of input channel addresses for the render call.
    pub fn input_ptrs(&self, format: PluginFormat) -> (table: &[usize])
        ensures
            table@ == self.view_as(format).input_ptrs,
    {
        self.input_ptrs.as_slice()
    }

    /// The table of output channel addresses for the render call.
    pub fn output_ptrs(&self, format: PluginFormat) -> (table: &[usize])
        ensures
            table@ == self.view_as(format).output_ptrs,
    {
        self.output_ptrs.as_slice()
    }

    /// Validates a request to initialize and yields the block size as the
    /// native layer takes it.
    pub fn initialize(&self, format: PluginFormat, max_block_size: usize) -> (request: Result<
        u32,
        Error,
    >)
        ensures
            outcome_is(request, initialize_request(max_block_size)),
    {
        if max_block_size > u32::MAX as usize {
            Err(Error::Other(String::from_str("Maximum block size exceeds the native limit")))
        } else {
            Ok(max_block_size as u32)
        }
    }

    /// Completes an initialization from the status of the native call and
    /// the channel counts queried after it.
    ///
    /// On success the instance is initialized, also when it was before: the
    /// configuration is replaced, never added to.
    pub fn initialize_reply(
        &mut self,
        format: PluginFormat,
        max_block_size: usize,
        status: i32,
        input_channels: i32,
        output_channels: i32,
    ) -> (outcome: Result<(), Error>)
        ensures
            outcome_is(
                outcome,
                initialize_outcome(max_block_size, status, input_channels, output_channels),
            ),
            final(self).view_as(format) == initialize_state(
                old(self).view_as(format),
                max_block_size,
                status,
                input_channels,
                output_channels,
            ),
            final(self).view_as(format).wf(),
    {
        proof {
            use_type_invariant(&*self);
        }
        if max_block_size > u32::MAX as usize {
            return Err(
                Error::Other(String::from_str("Maximum block size exceeds the native limit")),
            );
        }
        if status != 0 {
            return Err(map_error(status));
        }
        if input_channels < 0 || output_channels < 0 {
            return Err(Error::Other(String::from_str("Failed to query channel configuration")));
        }
        let inputs: usize = input_channels as usize;
        let outputs: usize = output_channels as usize;
        let input_ptrs = null_table(inputs);
        let output_ptrs = null_table(outputs);
        self.initialized = true;
        self.max_block_size = max_block_size;
        self.input_ptrs = input_ptrs;
        self.output_ptrs = output_ptrs;
        Ok(())
    }

    /// Validates a request to clear the plugin's internal audio state.
    pub fn reset(&self, format: PluginFormat) -> (request: Result<(), Error>)
        ensures
            outcome_is(request, ready(self.view_as(format))),
    {
        if !self.initialized {
            return Err(Error::NotInitialized);
        }
        Ok(())
    }

    /// Validates a render request over planar buffers and, when it is
    /// accepted, refreshes the pointer tables without allocating.
    pub fn process(
        &mut self,
        format: PluginFormat,
        inputs: &[ChannelBuffer],
        outputs: &[ChannelBuffer],
        num_frames: usize,
    ) -> (call: Result<ProcessCall, Error>)
        ensures
            outcome_is(
                call,
                process_verdict(old(self).view_as(format), inputs@, outputs@, num_frames),
            ),
            final(self).view_as(format) == process_state(
                old(self).view_as(format),
                inputs@,
                outputs@,
                num_frames,
            ),
            final(self).view_as(format).wf(),
            inputs@.len() != old(self).view_as(format).input_channels() || outputs@.len()
                != old(self).view_as(format).output_channels() ==> call is Err,
            (exists|i: int| 0 <= i < inputs@.len() && inputs@[i].len < num_frames) ==> call is Err,
            (exists|i: int| 0 <= i < outputs@.len() && outputs@[i].len < num_frames)
                ==> call is Err,
    {
        proof {
            use_type_invariant(&*self);
            lemma_short_position(inputs@, num_frames, 0);
            lemma_short_position(outputs@, num_frames, 0);
        }
        if !self.initialized {
            return Err(Error::NotInitialized);
        }
        if inputs.len() != self.input_ptrs.len() {
            return Err(channel_mismatch_error("Input", self.input_ptrs.len(), inputs.len()));
        }
        if outputs.len() != self.output_ptrs.len() {
            return Err(channel_mismatch_error("Output", self.output_ptrs.len(), outputs.len()));
        }
        if inputs.len() == 0 || outputs.len() == 0 {
            return Err(Error::Other(String::from_str("Empty input or output channels")));
        }
        let short_input = find_short(inputs, num_frames);
        if short_input < inputs.len() {
            return Err(
                short_buffer_error("Input", short_input, inputs[short_input].len, num_frames),
            );
        }
        let short_output = find_short(outputs, num_frames);
        if short_output < outputs.len() {
            return Err(
                short_buffer_error("Output", short_output, outputs[short_output].len, num_frames),
            );
        }
        if num_frames > self.max_block_size {
            return Err(block_size_error(num_frames, self.max_block_size));
        }
        // Each table leaves the instance for the time it is written to, and
        // comes back with its length unchanged.
        let mut table: Vec<usize> = Vec::new();
        core::mem::swap(&mut self.input_ptrs, &mut table);
        refresh(&mut table, inputs);
        core::mem::swap(&mut self.input_ptrs, &mut table);
        core::mem::swap(&mut self.output_ptrs, &mut table);
        refresh(&mut table, outputs);
        core::mem::swap(&mut self.output_ptrs, &mut table);
        Ok(
            ProcessCall {
                num_input_channels: inputs.len() as u32,
                num_output_channels: outputs.len() as u32,
                frames: num_frames as u32,
            },
        )
    }
}

/// Whether the flag with which the native layer answers the question
/// "initialized?" says yes: any flag but zero from an AudioUnit, a positive
/// flag from a VST3 plugin.
pub open spec fn reports_initialized(format: PluginFormat, flag: i32) -> bool {
    match format {
        PluginFormat::AudioUnit => flag != 0,
        PluginFormat::Vst3 => flag > 0,
    }
}

/// Whether an instance counts as initialized, given the flag the native
/// layer reported: both the instance and the native layer must say so.
pub open spec fn confirmed_initialized(state: InstanceView, flag: i32) -> bool {
    state.initialized && reports_initialized(state.format, flag)
}

/// The outcome of asking for a parameter by index, given the parameter
/// count the native layer reported: the index as the native layer takes it.
///
/// An index at or above the count is refused with the invalid-parameter
/// error that names it.
pub open spec fn parameter_request(state: InstanceView, index: usize, reported: i32) -> Result<
    u32,
    ErrorView,
> {
    if !state.initialized {
        Err(ErrorView::NotInitialized)
    } else if index >= reported_count(state, reported) {
        Err(ErrorView::InvalidParameter(index))
    } else {
        Ok(index as u32)
    }
}

/// The outcome of asking for a preset by its position in the enumeration:
/// the position as the native layer takes it. Whether the position names a
/// preset is for the native layer to say.
pub open spec fn preset_request(state: InstanceView, index: usize) -> Result<u32, ErrorView> {
    if !state.initialized {
        Err(ErrorView::NotInitialized)
    } else if index > u32::MAX {
        Err(ErrorView::InvalidParameter(index))
    } else {
        Ok(index as u32)
    }
}

/// The number of parameters or presets, given the count the native layer
/// reported: none before initialization, and none for a negative report.
pub open spec fn reported_count(state: InstanceView, reported: i32) -> usize {
    if !state.initialized || reported < 0 {
        0
    } else {
        reported as usize
    }
}

/// The number of factory presets of a VST3 plugin, given the count the
/// native layer reported.
pub open spec fn preset_count_outcome(state: InstanceView, reported: i32) -> Result<
    usize,
    ErrorView,
> {
    if !state.initialized {
        Err(ErrorView::NotInitialized)
    } else {
        Ok(reported_count(state, reported))
    }
}

/// The outcome of reading a parameter's value, given the status of the
/// native call and the value it wrote.
pub open spec fn get_parameter_outcome<V>(
    state: InstanceView,
    index: usize,
    reported: i32,
    status: i32,
    value: V,
) -> Result<V, ErrorView> {
    match parameter_request(state, index, reported) {
        Err(error) => Err(error),
        Ok(_) => if status != 0 {
            Err(map_error_at_spec(status, index))
        } else {
            Ok(value)
        },
    }
}

/// The outcome of writing a parameter's value, given the status of the
/// native call.
pub open spec fn set_parameter_outcome(
    state: InstanceView,
    index: usize,
    reported: i32,
    status: i32,
) -> Result<(), ErrorView> {
    match parameter_request(state, index, reported) {
        Err(error) => Err(error),
        Ok(_) => if status != 0 {
            Err(map_error_at_spec(status, index))
        } else {
            Ok(())
        },
    }
}

/// An index at or above the parameter count of an initialized instance is
/// refused with the invalid-parameter error that names it: by the request,
/// and by every reply whatever the native layer answered.
pub proof fn lemma_parameter_out_of_range<V>(
    state: InstanceView,
    index: usize,
    reported: i32,
    status: i32,
    name: Seq<u8>,
    unit: Seq<u8>,
    min: V,
    max: V,
    default: V,
)
    requires
        state.initialized,
        index >= reported_count(state, reported),
    ensures
        parameter_request(state, index, reported) == Err::<u32, ErrorView>(
            ErrorView::InvalidParameter(index),
        ),
        get_parameter_outcome(state, index, reported, status, min) == Err::<V, ErrorView>(
            ErrorView::InvalidParameter(index),
        ),
        set_parameter_outcome(state, index, reported, status) == Err::<(), ErrorView>(
            ErrorView::InvalidParameter(index),
        ),
        parameter_info_outcome(state, index, reported, status, name, unit, min, max, default)
            == Err::<ParameterInfoView<V>, ErrorView>(ErrorView::InvalidParameter(index)),
{
}

/// An index that the native layer refuses as invalid is reported with the
/// invalid-parameter error that names it.
pub proof fn lemma_parameter_refused<V>(state: InstanceView, index: usize, reported: i32, value: V)
    requires
        state.initialized,
        index < reported_count(state, reported),
    ensures
        get_parameter_outcome(state, index, reported, RACK_AU_ERROR_INVALID_PARAM, value)
            == Err::<V, ErrorView>(ErrorView::InvalidParameter(index)),
        set_parameter_outcome(state, index, reported, RACK_AU_ERROR_INVALID_PARAM) == Err::<
            (),
            ErrorView,
        >(ErrorView::InvalidParameter(index)),
{
}

/// The descriptor of a parameter, given the status of the native call and
/// the buffers and values it filled in.
pub open spec fn parameter_info_outcome<V>(
    state: InstanceView,
    index: usize,
    reported: i32,
    status: i32,
    name: Seq<u8>,
    unit: Seq<u8>,
    min: V,
    max: V,
    default: V,
) -> Result<ParameterInfoView<V>, ErrorView> {
    match parameter_request(state, index, reported) {
        Err(error) => Err(error),
        Ok(_) => if status != 0 {
            Err(map_error_at_spec(status, index))
        } else {
            match c_array_text(name, "parameter name"@) {
                Err(error) => Err(error),
                Ok(name_text) => match c_array_text(unit, "parameter unit"@) {
                    Err(error) => Err(error),
                    Ok(unit_text) => Ok(
                        ParameterInfoView {
                            index,
                            name: name_text,
                            min,
                            max,
                            default,
                            unit: unit_text,
                        },
                    ),
                },
            }
        },
    }
}

/// The descriptor of a preset, given the status of the native call and the
/// name buffer and preset number it filled in.
pub open spec fn preset_info_outcome(
    state: InstanceView,
    index: usize,
    status: i32,
    name: Seq<u8>,
    preset_number: i32,
) -> Result<PresetInfoView, ErrorView> {
    match preset_request(state, index) {
        Err(error) => Err(error),
        Ok(_) => if status != 0 {
            Err(map_error_at_spec(status, index))
        } else {
            match c_array_text(name, "preset name"@) {
                Err(error) => Err(error),
                Ok(name_text) => Ok(
                    PresetInfoView { index, name: name_text, preset_number },
                ),
            }
        },
    }
}

/// The outcome of asking to load a preset: the preset number, unchanged.
pub open spec fn load_preset_request(state: InstanceView, preset_number: i32) -> Result<
    i32,
    ErrorView,
> {
    if !state.initialized {
        Err(ErrorView::NotInitialized)
    } else {
        Ok(preset_number)
    }
}

/// The message for a state whose size the native layer could not tell.
pub open spec fn state_size_message(format: PluginFormat) -> Seq<char> {
    match format {
        PluginFormat::AudioUnit => "Failed to get plugin state size"@,
        PluginFormat::Vst3 => "Cannot retrieve plugin state"@,
    }
}

/// The buffer to fetch the serialized state into, given the size the native
/// layer reported: that many zero bytes.
pub open spec fn state_buffer_outcome(state: InstanceView, size: i32) -> Result<
    Seq<u8>,
    ErrorView,
> {
    if !state.initialized {
        Err(ErrorView::NotInitialized)
    } else if size <= 0 {
        Err(ErrorView::Other(state_size_message(state.format)))
    } else {
        Ok(Seq::new(size as nat, |i: int| 0u8))
    }
}

/// The serialized state once the native layer has written `written` bytes
/// into `data`.
///
/// A short write is cut to what was written. A report of more bytes than
/// the buffer holds pads an AudioUnit state with zero bytes and leaves a
/// VST3 state as long as the buffer.
pub open spec fn state_bytes(format: PluginFormat, data: Seq<u8>, written: usize) -> Seq<u8> {
    if written <= data.len() {
        data.subrange(0, written as int)
    } else {
        match format {
            PluginFormat::AudioUnit => data + Seq::new(
                (written - data.len()) as nat,
                |i: int| 0u8,
            ),
            PluginFormat::Vst3 => data,
        }
    }
}

/// The serialized state, given the status of the native call, the buffer it
/// wrote into and the number of bytes it reported.
pub open spec fn get_state_outcome(
    state: InstanceView,
    status: i32,
    data: Seq<u8>,
    written: usize,
) -> Result<Seq<u8>, ErrorView> {
    if !state.initialized {
        Err(ErrorView::NotInitialized)
    } else if status != 0 {
        Err(map_error_spec(status))
    } else {
        Ok(state_bytes(state.format, data, written))
    }
}

/// The outcome of asking to restore a serialized state: empty data is
/// refused.
pub open spec fn set_state_request(state: InstanceView, data: Seq<u8>) -> Result<(), ErrorView> {
    if !state.initialized {
        Err(ErrorView::NotInitialized)
    } else if data.len() == 0 {
        Err(ErrorView::Other("State data is empty"@))
    } else {
        Ok(())
    }
}

/// The outcome of asking to send MIDI events: nothing to hand over for an
/// empty list, else the batch of native events, one per event and in their
/// order. No event is left out, whatever the format of the plugin.
pub open spec fn send_midi_request(state: InstanceView, events: Seq<MidiEvent>) -> Result<
    Option<Seq<RackAUMidiEvent>>,
    ErrorView,
> {
    if !state.initialized {
        Err(ErrorView::NotInitialized)
    } else if events.len() == 0 {
        Ok(None)
    } else if events.len() > MAX_BATCH_EVENTS {
        Err(ErrorView::Other("Too many MIDI events in one batch"@))
    } else {
        Ok(Some(wire_events(events)))
    }
}

/// Every event of an accepted list reaches the native layer: the batch
/// holds one native event per event, the native form of that event.
pub proof fn lemma_every_event_is_carried(state: InstanceView, events: Seq<MidiEvent>)
    requires
        state.initialized,
        0 < events.len() <= MAX_BATCH_EVENTS,
    ensures
        send_midi_request(state, events) matches Ok(Some(batch)) && batch.len() == events.len()
            && forall|i: int| 0 <= i < events.len() ==> batch[i] == wire_event(events[i]),
{
}

/// Sending an empty list of events to an initialized instance always
/// succeeds, and nothing is handed to the native layer.
pub proof fn lemma_empty_midi_succeeds(state: InstanceView)
    requires
        state.initialized,
    ensures
        send_midi_request(state, Seq::<MidiEvent>::empty()) == Ok::<
            Option<Seq<RackAUMidiEvent>>,
            ErrorView,
        >(None),
{
}

/// Whether `produced` is the batch, the absence of one, or the error that
/// `expected` calls for.
pub open spec fn batch_outcome_is(
    produced: Result<Option<MidiBatch>, Error>,
    expected: Result<Option<Seq<RackAUMidiEvent>>, ErrorView>,
) -> bool {
    match produced {
        Ok(Some(batch)) => expected == Ok::<Option<Seq<RackAUMidiEvent>>, ErrorView>(
            Some(batch@),
        ),
        Ok(None) => expected == Ok::<Option<Seq<RackAUMidiEvent>>, ErrorView>(None),
        Err(error) => expected == Err::<Option<Seq<RackAUMidiEvent>>, ErrorView>(error@),
    }
}

/// The message for an effect plugin that refused MIDI events.
pub open spec fn effect_midi_message(name: Seq<char>) -> Seq<char> {
    "Effect plugin '"@ + name
        + "' does not support MIDI (only instrument plugins typically respond to MIDI)"@
}

/// The outcome of sending MIDI events, given the status of the native call.
///
/// A failure on an AudioUnit effect is reported as the effect not taking
/// MIDI; every other failure is the mapped status.
pub open spec fn send_midi_outcome(state: InstanceView, status: i32) -> Result<(), ErrorView> {
    if !state.initialized {
        Err(ErrorView::NotInitialized)
    } else if status == 0 {
        Ok(())
    } else if state.format == PluginFormat::AudioUnit && state.info.plugin_type
        == PluginType::Effect {
        Err(ErrorView::Other(effect_midi_message(state.info.name)))
    } else {
        Err(map_error_spec(status))
    }
}

fn zero_bytes(count: usize) -> (bytes: Vec<u8>)
    ensures
        bytes@ == Seq::new(count as nat, |i: int| 0u8),
{
    let mut bytes: Vec<u8> = Vec::with_capacity(count);
    let mut i: usize = 0;
    while i < count
        invariant
            i <= count,
            bytes@ == Seq::new(i as nat, |i: int| 0u8),
        decreases count - i,
    {
        bytes.push(0u8);
        i = i + 1;
    }
    bytes
}

fn pad_with_zeros(data: &mut Vec<u8>, len: usize)
    requires
        old(data)@.len() <= len,
    ensures
        final(data)@ == old(data)@ + Seq::new((len - old(data)@.len()) as nat, |i: int| 0u8),
{
    let ghost start = data@;
    while data.len() < len
        invariant
            start.len() <= data@.len() <= len,
            data@ == start + Seq::new((data@.len() - start.len()) as nat, |i: int| 0u8),
        decreases len - data@.len(),
    {
        data.push(0u8);
    }
}

impl PluginCore {
    /// The number of parameters, given the count the native layer reported.
    pub fn parameter_count(&self, format: PluginFormat, reported: i32) -> (count: usize)
        ensures
            count == reported_count(self.view_as(format), reported),
    {
        if !self.initialized || reported < 0 {
            0
        } else {
            reported as usize
        }
    }

    /// Interprets the flag with which the native layer answers the question
    /// "initialized?".
    pub fn is_initialized_reply(&self, format: PluginFormat, flag: i32) -> (initialized: bool)
        ensures
            initialized == confirmed_initialized(self.view_as(format), flag),
    {
        let reported = match format {
            PluginFormat::AudioUnit => flag != 0,
            PluginFormat::Vst3 => flag > 0,
        };
        self.initialized && reported
    }

    /// Validates a request that names a parameter by index against the
    /// parameter count the native layer reported, and yields the index as
    /// the native layer takes it.
    pub fn parameter_index(&self, format: PluginFormat, index: usize, reported: i32) -> (request:
        Result<u32, Error>)
        ensures
            outcome_is(request, parameter_request(self.view_as(format), index, reported)),
    {
        if !self.initialized {
            Err(Error::NotInitialized)
        } else if index >= self.parameter_count(format, reported) {
            Err(Error::InvalidParameter(index))
        } else {
            Ok(index as u32)
        }
    }

    /// Builds the descriptor of a parameter from what the native layer
    /// filled in. The name and the unit label are read from their buffers
    /// by a search bounded by the buffer.
    pub fn parameter_info_reply<V>(
        &self,
        format: PluginFormat,
        index: usize,
        reported: i32,
        status: i32,
        name: &[u8],
        unit: &[u8],
        min: V,
        max: V,
        default: V,
    ) -> (info: Result<ParameterInfo<V>, Error>)
        ensures
            viewed_outcome_is(
                info,
                parameter_info_outcome(
                    self.view_as(format),
                    index,
                    reported,
                    status,
                    name@,
                    unit@,
                    min,
                    max,
                    default,
                ),
            ),
    {
        match self.parameter_index(format, index, reported) {
            Err(error) => Err(error),
            Ok(_) => {
                if status != 0 {
                    return Err(map_error_at(status, index));
                }
                let name_text = match c_array_to_string(name, "parameter name") {
                    Ok(text) => text,
                    Err(error) => { return Err(error); },
                };
                let unit_text = match c_array_to_string(unit, "parameter unit") {
                    Ok(text) => text,
                    Err(error) => { return Err(error); },
                };
                Ok(ParameterInfo::new(index, name_text, min, max, default, unit_text))
            },
        }
    }

    /// Interprets the reply to reading a parameter: the value the native
    /// layer wrote, when its status is success.
    pub fn get_parameter_reply<V>(
        &self,
        format: PluginFormat,
        index: usize,
        reported: i32,
        status: i32,
        value: V,
    ) -> (outcome: Result<V, Error>)
        ensures
            outcome_is(
                outcome,
                get_parameter_outcome(self.view_as(format), index, reported, status, value),
            ),
    {
        match self.parameter_index(format, index, reported) {
            Err(error) => Err(error),
            Ok(_) => {
                if status != 0 {
                    Err(map_error_at(status, index))
                } else {
                    Ok(value)
                }
            },
        }
    }

    /// Interprets the reply to writing a parameter.
    pub fn set_parameter_reply(
        &self,
        format: PluginFormat,
        index: usize,
        reported: i32,
        status: i32,
    ) -> (outcome: Result<(), Error>)
        ensures
            outcome_is(
                outcome,
                set_parameter_outcome(self.view_as(format), index, reported, status),
            ),
    {
        match self.parameter_index(format, index, reported) {
            Err(error) => Err(error),
            Ok(_) => {
                if status != 0 {
                    Err(map_error_at(status, index))
                } else {
                    Ok(())
                }
            },
        }
    }

    /// The number of factory presets, given the count the native layer
    /// reported.
    pub fn preset_count(&self, format: PluginFormat, reported: i32) -> (count: usize)
        ensures
            count == reported_count(self.view_as(format), reported),
    {
        self.parameter_count(format, reported)
    }

    /// Validates a request that names a preset by its position in the
    /// enumeration and yields the position as the native layer takes it.
    pub fn preset_index(&self, format: PluginFormat, index: usize) -> (request: Result<u32, Error>)
        ensures
            outcome_is(request, preset_request(self.view_as(format), index)),
    {
        if !self.initialized {
            Err(Error::NotInitialized)
        } else if index > u32::MAX as usize {
            Err(Error::InvalidParameter(index))
        } else {
            Ok(index as u32)
        }
    }

    /// Builds the descriptor of a preset from what the native layer filled
    /// in. The name is read from its buffer by a search bounded by the
    /// buffer.
    pub fn preset_info_reply(
        &self,
        format: PluginFormat,
        index: usize,
        status: i32,
        name: &[u8],
        preset_number: i32,
    ) -> (info: Result<PresetInfo, Error>)
        ensures
            viewed_outcome_is(
                info,
                preset_info_outcome(self.view_as(format), index, status, name@, preset_number),
            ),
    {
        match self.preset_index(format, index) {
            Err(error) => Err(error),
            Ok(_) => {
                if status != 0 {
                    return Err(map_error_at(status, index));
                }
                match c_array_to_string(name, "preset name") {
                    Ok(text) => Ok(PresetInfo::new(index, text, preset_number)),
                    Err(error) => Err(error),
                }
            },
        }
    }

    /// Validates a request to load a factory preset and yields the preset
    /// number to hand to the native layer.
    pub fn load_preset(&self, format: PluginFormat, preset_number: i32) -> (request: Result<
        i32,
        Error,
    >)
        ensures
            outcome_is(request, load_preset_request(self.view_as(format), preset_number)),
    {
        if !self.initialized {
            Err(Error::NotInitialized)
        } else {
            Ok(preset_number)
        }
    }

    /// Validates a request to serialize the plugin's state.
    pub fn get_state(&self, format: PluginFormat) -> (request: Result<(), Error>)
        ensures
            outcome_is(request, ready(self.view_as(format))),
    {
        self.reset(format)
    }

    /// Allocates the buffer to fetch the serialized state into, given the
    /// size the native layer reported.
    pub fn state_buffer(&self, format: PluginFormat, size: i32) -> (buffer: Result<Vec<u8>, Error>)
        ensures
            viewed_outcome_is(buffer, state_buffer_outcome(self.view_as(format), size)),
    {
        if !self.initialized {
            return Err(Error::NotInitialized);
        }
        if size <= 0 {
            return match format {
                PluginFormat::AudioUnit => Err(
                    Error::Other(String::from_str("Failed to get plugin state size")),
                ),
                PluginFormat::Vst3 => Err(
                    Error::Other(String::from_str("Cannot retrieve plugin state")),
                ),
            };
        }
        Ok(zero_bytes(size as usize))
    }

    /// Interprets the reply to fetching the serialized state: the bytes the
    /// native layer reported as written.
    pub fn get_state_reply(
        &self,
        format: PluginFormat,
        status: i32,
        data: Vec<u8>,
        written: usize,
    ) -> (state: Result<Vec<u8>, Error>)
        ensures
            viewed_outcome_is(
                state,
                get_state_outcome(self.view_as(format), status, data@, written),
            ),
    {
        if !self.initialized {
            return Err(Error::NotInitialized);
        }
        if status != 0 {
            return Err(map_error(status));
        }
        let mut data = data;
        if written <= data.len() {
            data.truncate(written);
        } else {
            match format {
                PluginFormat::AudioUnit => pad_with_zeros(&mut data, written),
                PluginFormat::Vst3 => {},
            }
        }
        Ok(data)
    }

    /// Validates a request to restore a serialized state.
    pub fn set_state(&self, format: PluginFormat, data: &[u8]) -> (request: Result<(), Error>)
        ensures
            outcome_is(request, set_state_request(self.view_as(format), data@)),
    {
        if !self.initialized {
            return Err(Error::NotInitialized);
        }
        if data.len() == 0 {
            return Err(Error::Other(String::from_str("State data is empty")));
        }
        Ok(())
    }

    /// Validates a request to send MIDI events and marshals them into one
    /// batch. An empty list needs no native call: `Ok(None)`.
    pub fn send_midi(&self, format: PluginFormat, events: &[MidiEvent]) -> (request: Result<
        Option<MidiBatch>,
        Error,
    >)
        ensures
            batch_outcome_is(request, send_midi_request(self.view_as(format), events@)),
            self.view_as(format).initialized && events@.len() == 0 ==> request matches Ok(None),
    {
        if !self.initialized {
            return Err(Error::NotInitialized);
        }
        if events.len() == 0 {
            return Ok(None);
        }
        match MidiBatch::encode(events) {
            Some(batch) => Ok(Some(batch)),
            None => Err(Error::Other(String::from_str("Too many MIDI events in one batch"))),
        }
    }

    /// Interprets the status of the native call that took a MIDI batch.
    pub fn send_midi_reply(&self, format: PluginFormat, status: i32) -> (outcome: Result<(), Error>)
        ensures
            outcome_is(outcome, send_midi_outcome(self.view_as(format), status)),
    {
        if !self.initialized {
            return Err(Error::NotInitialized);
        }
        if status == 0 {
            return Ok(());
        }
        let effect = match self.info.plugin_type {
            PluginType::Effect => true,
            _ => false,
        };
        let audio_unit = match format {
            PluginFormat::AudioUnit => true,
            PluginFormat::Vst3 => false,
        };
        if audio_unit && effect {
            let mut message = String::from_str("Effect plugin '");
            message.append(self.info.name.as_str());
            message.append(
                "' does not support MIDI (only instrument plugins typically respond to MIDI)",
            );
            return Err(Error::Other(message));
        }
        Err(map_error(status))
    }
}

} // verus!
