//! An instantiated VST3 plugin.
//!
//! The instance owns one native handle; it can be moved between threads but
//! must not be used from two threads at once. Of all operations only the
//! render request is meant for a real-time thread: it neither allocates nor
//! blocks.

use crate::au::ffi::MidiBatch;
use crate::error::{outcome_is, viewed_outcome_is, Error, ErrorView};
use crate::instance::{
    creation, get_state_outcome, load_preset_request, marshal_path, marshal_unique_id,
    path_request, preset_count_outcome, preset_info_outcome, preset_request, ready,
    set_state_request, state_buffer_outcome, unique_id_request, ChannelBuffer, InstanceView,
    PluginCore, PluginFormat, ProcessCall,
};
use crate::midi::MidiEvent;
use crate::plugin_info::{ParameterInfo, PluginInfo, PresetInfo};
use crate::traits::PluginInstance;
use crate::vst3::ffi::RackVST3Plugin;
use vstd::prelude::*;

verus! {

/// An instantiated VST3 plugin. Its state always has the format
/// [`PluginFormat::Vst3`], as [`format`](Self::format) and
/// [`is_initialized`](PluginInstance::is_initialized) state.
pub struct Vst3Plugin {
    core: PluginCore,
}

impl View for Vst3Plugin {
    type V = InstanceView;

    closed spec fn view(&self) -> InstanceView {
        self.core.view_as(PluginFormat::Vst3)
    }
}

impl Vst3Plugin {
    /// Marshals the path and the identifier of `info`, by which the native
    /// layer resolves the plugin.
    pub fn load_request(info: &PluginInfo) -> (request: Result<(Vec<u8>, Vec<u8>), Error>)
        ensures
            match request {
                Ok((path, unique_id)) => path_request(info@) == Ok::<Seq<u8>, ErrorView>(path@)
                    && unique_id_request(info@) == Ok::<Seq<u8>, ErrorView>(unique_id@),
                Err(error) => match path_request(info@) {
                    Err(path_error) => error@ == path_error,
                    Ok(_) => unique_id_request(info@) == Err::<Seq<u8>, ErrorView>(error@),
                },
            },
    {
        let path = match marshal_path(info) {
            Ok(bytes) => bytes,
            Err(error) => { return Err(error); },
        };
        let unique_id = match marshal_unique_id(info) {
            Ok(bytes) => bytes,
            Err(error) => { return Err(error); },
        };
        Ok((path, unique_id))
    }

    /// Creates the instance for `info` around the handle the native layer
    /// returned; a null handle means the plugin was not found.
    pub fn new(info: &PluginInfo, handle: RackVST3Plugin) -> (plugin: Result<Vst3Plugin, Error>)
        ensures
            viewed_outcome_is(plugin, creation(PluginFormat::Vst3, info@, handle.address)),
            plugin matches Ok(created) ==> created@.wf(),
    {
        match PluginCore::new(PluginFormat::Vst3, info, handle.address) {
            Ok(core) => Ok(Vst3Plugin { core }),
            Err(error) => Err(error),
        }
    }

    /// The native handle; never null.
    pub fn handle(&self) -> (handle: RackVST3Plugin)
        ensures
            handle.address == self@.handle,
            !handle.null(),
    {
        RackVST3Plugin { address: self.core.handle(PluginFormat::Vst3) }
    }

    /// The technology of the plugin: always VST3.
    pub fn format(&self) -> (format: PluginFormat)
        ensures
            format == PluginFormat::Vst3,
            self@.format == PluginFormat::Vst3,
    {
        let _ = self.core.is_initialized(PluginFormat::Vst3);
        PluginFormat::Vst3
    }

    /// Largest frame count one render call may ask for; 0 before
    /// initialization.
    pub fn max_block_size(&self) -> (frames: usize)
        ensures
            frames == self@.max_block_size,
    {
        self.core.max_block_size(PluginFormat::Vst3)
    }

    /// Negotiated number of input channels; 0 before initialization.
    pub fn input_channels(&self) -> (channels: usize)
        ensures
            channels == self@.input_channels(),
    {
        self.core.input_channels(PluginFormat::Vst3)
    }

    /// Negotiated number of output channels; 0 before initialization.
    pub fn output_channels(&self) -> (channels: usize)
        ensures
            channels == self@.output_channels(),
    {
        self.core.output_channels(PluginFormat::Vst3)
    }

    /// The table of input channel addresses for the render call.
    pub fn input_ptrs(&self) -> (table: &[usize])
        ensures
            table@ == self@.input_ptrs,
    {
        self.core.input_ptrs(PluginFormat::Vst3)
    }

    /// The table of output channel addresses for the render call.
    pub fn output_ptrs(&self) -> (table: &[usize])
        ensures
            table@ == self@.output_ptrs,
    {
        self.core.output_ptrs(PluginFormat::Vst3)
    }

    /// The number of factory presets, given the count the native layer
    /// reported; a negative report means that the plugin has none.
    pub fn preset_count(&self, reported: i32) -> (count: Result<usize, Error>)
        ensures
            outcome_is(count, preset_count_outcome(self@, reported)),
    {
        if !self.core.is_initialized(PluginFormat::Vst3) {
            return Err(Error::NotInitialized);
        }
        Ok(self.core.preset_count(PluginFormat::Vst3, reported))
    }

    /// Validates a request for a preset's descriptor and yields its
    /// position as the native layer takes it.
    pub fn preset_info(&self, index: usize) -> (request: Result<u32, Error>)
        ensures
            outcome_is(request, preset_request(self@, index)),
    {
        self.core.preset_index(PluginFormat::Vst3, index)
    }

    /// Builds the descriptor of a preset from what the native layer filled
    /// in.
    pub fn preset_info_reply(
        &self,
        index: usize,
        status: i32,
        name: &[u8],
        preset_number: i32,
    ) -> (info: Result<PresetInfo, Error>)
        ensures
            viewed_outcome_is(
                info,
                preset_info_outcome(self@, index, status, name@, preset_number),
            ),
    {
        self.core.preset_info_reply(PluginFormat::Vst3, index, status, name, preset_number)
    }

    /// Validates a request to load a factory preset. The number is the
    /// `preset_number` of a descriptor, never its position.
    pub fn load_preset(&self, preset_number: i32) -> (request: Result<i32, Error>)
        ensures
            outcome_is(request, load_preset_request(self@, preset_number)),
    {
        self.core.load_preset(PluginFormat::Vst3, preset_number)
    }

    /// Validates a request to serialize the plugin's state.
    pub fn get_state(&self) -> (request: Result<(), Error>)
        ensures
            outcome_is(request, ready(self@)),
    {
        self.core.get_state(PluginFormat::Vst3)
    }

    /// Allocates the buffer to fetch the serialized state into, given the
    /// size the native layer reported.
    pub fn state_buffer(&self, size: i32) -> (buffer: Result<Vec<u8>, Error>)
        ensures
            viewed_outcome_is(buffer, state_buffer_outcome(self@, size)),
    {
        self.core.state_buffer(PluginFormat::Vst3, size)
    }

    /// Interprets the reply to fetching the serialized state.
    pub fn get_state_reply(&self, status: i32, data: Vec<u8>, written: usize) -> (state: Result<
        Vec<u8>,
        Error,
    >)
        ensures
            viewed_outcome_is(state, get_state_outcome(self@, status, data@, written)),
    {
        self.core.get_state_reply(PluginFormat::Vst3, status, data, written)
    }

    /// Validates a request to restore a serialized state; empty data is
    /// refused.
    pub fn set_state(&self, data: &[u8]) -> (request: Result<(), Error>)
        ensures
            outcome_is(request, set_state_request(self@, data@)),
    {
        self.core.set_state(PluginFormat::Vst3, data)
    }
}

impl PluginInstance for Vst3Plugin {
    open spec fn state(&self) -> InstanceView {
        self@
    }

    fn initialize(&self, max_block_size: usize) -> (request: Result<u32, Error>) {
        self.core.initialize(PluginFormat::Vst3, max_block_size)
    }

    fn initialize_reply(
        &mut self,
        max_block_size: usize,
        status: i32,
        input_channels: i32,
        output_channels: i32,
    ) -> (outcome: Result<(), Error>) {
        self.core.initialize_reply(
            PluginFormat::Vst3,
            max_block_size,
            status,
            input_channels,
            output_channels,
        )
    }

    fn reset(&self) -> (request: Result<(), Error>) {
        self.core.reset(PluginFormat::Vst3)
    }

    fn process(
        &mut self,
        inputs: &[ChannelBuffer],
        outputs: &[ChannelBuffer],
        num_frames: usize,
    ) -> (call: Result<ProcessCall, Error>) {
        self.core.process(PluginFormat::Vst3, inputs, outputs, num_frames)
    }

    fn parameter_count(&self, reported: i32) -> (count: usize) {
        self.core.parameter_count(PluginFormat::Vst3, reported)
    }

    fn parameter_info(&self, index: usize, reported: i32) -> (request: Result<u32, Error>) {
        self.core.parameter_index(PluginFormat::Vst3, index, reported)
    }

    fn parameter_info_reply<V>(
        &self,
        index: usize,
        reported: i32,
        status: i32,
        name: &[u8],
        unit: &[u8],
        min: V,
        max: V,
        default: V,
    ) -> (info: Result<ParameterInfo<V>, Error>) {
        self.core.parameter_info_reply(
            PluginFormat::Vst3,
            index,
            reported,
            status,
            name,
            unit,
            min,
            max,
            default,
        )
    }

    fn get_parameter(&self, index: usize, reported: i32) -> (request: Result<u32, Error>) {
        self.core.parameter_index(PluginFormat::Vst3, index, reported)
    }

    fn get_parameter_reply<V>(
        &self,
        index: usize,
        reported: i32,
        status: i32,
        value: V,
    ) -> (outcome: Result<V, Error>) {
        self.core.get_parameter_reply(PluginFormat::Vst3, index, reported, status, value)
    }

    fn set_parameter(&self, index: usize, reported: i32) -> (request: Result<u32, Error>) {
        self.core.parameter_index(PluginFormat::Vst3, index, reported)
    }

    fn set_parameter_reply(&self, index: usize, reported: i32, status: i32) -> (outcome: Result<
        (),
        Error,
    >) {
        self.core.set_parameter_reply(PluginFormat::Vst3, index, reported, status)
    }

    fn send_midi(&self, events: &[MidiEvent]) -> (request: Result<Option<MidiBatch>, Error>) {
        self.core.send_midi(PluginFormat::Vst3, events)
    }

    fn send_midi_reply(&self, status: i32) -> (outcome: Result<(), Error>) {
        self.core.send_midi_reply(PluginFormat::Vst3, status)
    }

    fn info(&self) -> (info: &PluginInfo) {
        self.core.info(PluginFormat::Vst3)
    }

    fn is_initialized(&self) -> (initialized: bool)
        ensures
            self.state().format == PluginFormat::Vst3,
    {
        self.core.is_initialized(PluginFormat::Vst3)
    }

    fn is_initialized_reply(&self, flag: i32) -> (initialized: bool) {
        self.core.is_initialized_reply(PluginFormat::Vst3, flag)
    }
}

} // verus!
