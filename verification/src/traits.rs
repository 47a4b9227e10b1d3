//! The contracts every scanner and every plugin instance meet, whatever
//! the technology of the plugin.

use crate::au::ffi::MidiBatch;
use crate::error::{outcome_is, viewed_outcome_is, Error, ErrorView};
use crate::instance::{
    batch_outcome_is, confirmed_initialized, creation, get_parameter_outcome, initialize_outcome,
    initialize_request, initialize_state, parameter_info_outcome, parameter_request,
    process_state, process_verdict, ready, reported_count, send_midi_outcome, send_midi_request,
    set_parameter_outcome, ChannelBuffer, InstanceView, PluginFormat, ProcessCall,
};
use crate::midi::MidiEvent;
use crate::plugin_info::{ParameterInfo, PluginInfo};
use crate::scan::{list_outcome_is, scan_outcome, NativeRecord};
use vstd::prelude::*;

verus! {

/// A scanner that enumerates the plugins of one technology and resolves
/// their descriptors to instances. It never instantiates by itself.
pub trait PluginScanner {
    /// The instances this scanner makes.
    type Plugin: PluginInstance;

    /// The records the native scanner fills in.
    type Record: NativeRecord;

    /// The handle of a native plugin instance.
    type Handle;

    /// The technology of the plugins.
    spec fn format(&self) -> PluginFormat;

    /// The address behind a handle; 0 for the null handle.
    spec fn address(handle: Self::Handle) -> usize;

    /// Completes a scan of the default locations from the counts of both
    /// passes and the records read after pass two.
    ///
    /// With no plugin present the scan yields an empty list, not an error.
    fn scan(&self, count: i32, written: i32, records: &[Self::Record]) -> (list: Result<
        Vec<PluginInfo>,
        Error,
    >)
        ensures
            list_outcome_is(list, scan_outcome(self.format(), count, written, records@)),
            count == 0 ==> (list matches Ok(found) && found@.len() == 0),
    ;

    /// Makes the instance for `info` from the handle the native layer
    /// resolved it to; a null handle means that the plugin was not found.
    fn load(&self, info: &PluginInfo, handle: Self::Handle) -> (plugin: Result<
        Self::Plugin,
        Error,
    >)
        ensures
            match plugin {
                Ok(created) => creation(self.format(), info@, Self::address(handle)) == Ok::<
                    InstanceView,
                    ErrorView,
                >(created.state()) && created.state().wf(),
                Err(error) => creation(self.format(), info@, Self::address(handle)) == Err::<
                    InstanceView,
                    ErrorView,
                >(error@),
            },
    ;
}

/// An instantiated audio plugin.
///
/// Each operation is split around the native call it needs. The method
/// named after the operation validates the request and marshals its
/// arguments; a `_reply` method, or
/// [`check_status`](crate::au::util::check_status) where a status is all
/// there is, interprets what the native layer answered.
///
/// Of all operations only [`process`](Self::process) is meant for a
/// real-time thread: it neither allocates nor blocks. An instance must not
/// be used from two threads at once.
pub trait PluginInstance: Send {
    /// The state of the instance.
    spec fn state(&self) -> InstanceView;

    /// Validates a request to initialize and yields the block size as the
    /// native layer takes it.
    fn initialize(&self, max_block_size: usize) -> (request: Result<u32, Error>)
        ensures
            outcome_is(request, initialize_request(max_block_size)),
    ;

    /// Completes an initialization from the status of the native call and
    /// the channel counts queried after it.
    ///
    /// Initializing an initialized instance again replaces its
    /// configuration, pointer tables included.
    fn initialize_reply(
        &mut self,
        max_block_size: usize,
        status: i32,
        input_channels: i32,
        output_channels: i32,
    ) -> (outcome: Result<(), Error>)
        ensures
            outcome_is(
                outcome,
                initialize_outcome(max_block_size, status, input_channels, output_channels),
            ),
            final(self).state() == initialize_state(
                old(self).state(),
                max_block_size,
                status,
                input_channels,
                output_channels,
            ),
            final(self).state().wf(),
    ;

    /// Validates a request to clear the plugin's internal audio state;
    /// parameter values are not touched by a reset.
    fn reset(&self) -> (request: Result<(), Error>)
        ensures
            outcome_is(request, ready(self.state())),
    ;

    /// Validates a render request over planar buffers and, when it is
    /// accepted, refreshes the pointer tables without allocating.
    ///
    /// A request with a channel count other than the negotiated one is
    /// refused, whether it has fewer channels or more, and so is a request
    /// with any buffer shorter than `num_frames`. A refused request changes
    /// nothing.
    fn process(
        &mut self,
        inputs: &[ChannelBuffer],
        outputs: &[ChannelBuffer],
        num_frames: usize,
    ) -> (call: Result<ProcessCall, Error>)
        ensures
            outcome_is(call, process_verdict(old(self).state(), inputs@, outputs@, num_frames)),
            final(self).state() == process_state(
                old(self).state(),
                inputs@,
                outputs@,
                num_frames,
            ),
            final(self).state().wf(),
            inputs@.len() != old(self).state().input_channels() || outputs@.len() != old(
                self,
            ).state().output_channels() ==> call is Err,
            (exists|i: int| 0 <= i < inputs@.len() && inputs@[i].len < num_frames) ==> call is Err,
            (exists|i: int| 0 <= i < outputs@.len() && outputs@[i].len < num_frames)
                ==> call is Err,
            call is Err ==> final(self).state() == old(self).state(),
    ;

    /// The number of parameters, given the count the native layer reported.
    fn parameter_count(&self, reported: i32) -> (count: usize)
        ensures
            count == reported_count(self.state(), reported),
    ;

    /// Validates a request for a parameter's descriptor against the
    /// parameter count the native layer reported, and yields the index as
    /// the native layer takes it. An index at or above the count fails with
    /// the invalid-parameter error that names it.
    fn parameter_info(&self, index: usize, reported: i32) -> (request: Result<u32, Error>)
        ensures
            outcome_is(request, parameter_request(self.state(), index, reported)),
    ;

    /// Builds the descriptor of a parameter from what the native layer
    /// filled in. The name and the unit label are read from their buffers
    /// by a search bounded by the buffer.
    fn parameter_info_reply<V>(
        &self,
        index: usize,
        reported: i32,
        status: i32,
        name: &[u8],
        unit: &[u8],
        min: V,
        max: V,
        default: V,
    ) -> (info: Result<ParameterInfo<V>, Error>)
        ensures
            viewed_outcome_is(
                info,
                parameter_info_outcome(
                    self.state(),
                    index,
                    reported,
                    status,
                    name@,
                    unit@,
                    min,
                    max,
                    default,
                ),
            ),
    ;

    /// Validates a request to read a parameter against the parameter count
    /// the native layer reported, and yields the index as the native layer
    /// takes it. An index at or above the count fails with the
    /// invalid-parameter error that names it.
    fn get_parameter(&self, index: usize, reported: i32) -> (request: Result<u32, Error>)
        ensures
            outcome_is(request, parameter_request(self.state(), index, reported)),
    ;

    /// Interprets the reply to reading a parameter: the value the native
    /// layer wrote, when its status is success.
    fn get_parameter_reply<V>(
        &self,
        index: usize,
        reported: i32,
        status: i32,
        value: V,
    ) -> (outcome: Result<V, Error>)
        ensures
            outcome_is(
                outcome,
                get_parameter_outcome(self.state(), index, reported, status, value),
            ),
    ;

    /// Validates a request to write a parameter against the parameter count
    /// the native layer reported, and yields the index as the native layer
    /// takes it. An index at or above the count fails with the
    /// invalid-parameter error that names it. The value is not looked at: a
    /// value outside the normalized range is clamped by the native layer,
    /// not refused.
    fn set_parameter(&self, index: usize, reported: i32) -> (request: Result<u32, Error>)
        ensures
            outcome_is(request, parameter_request(self.state(), index, reported)),
    ;

    /// Interprets the reply to writing a parameter.
    fn set_parameter_reply(&self, index: usize, reported: i32, status: i32) -> (outcome: Result<
        (),
        Error,
    >)
        ensures
            outcome_is(outcome, set_parameter_outcome(self.state(), index, reported, status)),
    ;

    /// Validates a request to send MIDI events and marshals them into one
    /// batch: one native event per event, system real-time messages
    /// included. An empty list always succeeds and needs no native call:
    /// `Ok(None)`.
    fn send_midi(&self, events: &[MidiEvent]) -> (request: Result<Option<MidiBatch>, Error>)
        ensures
            batch_outcome_is(request, send_midi_request(self.state(), events@)),
            self.state().initialized && events@.len() == 0 ==> request matches Ok(None),
    ;

    /// Interprets the status of the native call that took a MIDI batch.
    fn send_midi_reply(&self, status: i32) -> (outcome: Result<(), Error>)
        ensures
            outcome_is(outcome, send_midi_outcome(self.state(), status)),
    ;

    /// The descriptor the instance was created from.
    fn info(&self) -> (info: &PluginInfo)
        ensures
            info@ == self.state().info,
    ;

    /// Whether the instance has been initialized.
    fn is_initialized(&self) -> (initialized: bool)
        ensures
            initialized == self.state().initialized,
            self.state().wf(),
    ;

    /// Whether the instance counts as initialized, given the flag with
    /// which the native layer answered the same question: both must say so.
    fn is_initialized_reply(&self, flag: i32) -> (initialized: bool)
        ensures
            initialized == confirmed_initialized(self.state(), flag),
    ;
}

} // verus!
