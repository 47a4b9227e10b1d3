//! Enumeration of AudioUnit plugins.

use crate::au::ffi::{RackAUPlugin, RackAUPluginInfo, RackAUScanner};
use crate::au::instance::AudioUnitPlugin;
use crate::error::{outcome_is, viewed_outcome_is, Error, ErrorView};
use crate::instance::PluginFormat;
use crate::plugin_info::{PluginInfo, PluginInfoView};
use crate::scan::{
    capacity_outcome, descriptor_of, list_outcome_is, read_descriptor, scan_capacity,
    scan_outcome, scan_records, valid_outcome, valid_records, NativeRecord,
};
use crate::traits::PluginScanner;
use vstd::prelude::*;
use vstd::string::*;

verus! {

/// The descriptor a native record stands for.
pub open spec fn record_descriptor(record: RackAUPluginInfo) -> Result<PluginInfoView, ErrorView> {
    descriptor_of(
        record.name@,
        record.manufacturer@,
        record.path@,
        record.unique_id@,
        record.version,
        record.plugin_type.plugin_type(),
    )
}

/// Reads a native record into a descriptor. Every text field is read by a
/// search bounded by its buffer.
pub fn convert_plugin_info(c_info: &RackAUPluginInfo) -> (info: Result<PluginInfo, Error>)
    ensures
        viewed_outcome_is(info, record_descriptor(*c_info)),
{
    read_descriptor(
        c_info.name.as_slice(),
        c_info.manufacturer.as_slice(),
        c_info.path.as_slice(),
        c_info.unique_id.as_slice(),
        c_info.version,
        c_info.plugin_type.to_plugin_type(),
    )
}

impl NativeRecord for RackAUPluginInfo {
    open spec fn descriptor(&self) -> Result<PluginInfoView, ErrorView> {
        record_descriptor(*self)
    }

    fn convert(&self) -> (info: Result<PluginInfo, Error>) {
        convert_plugin_info(self)
    }
}

/// Scanner for AudioUnit plugins, which are registered with the system.
pub struct AudioUnitScanner {
    inner: RackAUScanner,
}

impl View for AudioUnitScanner {
    type V = RackAUScanner;

    closed spec fn view(&self) -> RackAUScanner {
        self.inner
    }
}

/// The scanner that comes of the handle the native layer returned: a null
/// handle means that none could be allocated.
pub open spec fn scanner_creation(handle: RackAUScanner) -> Result<RackAUScanner, ErrorView> {
    if handle.null() {
        Err(ErrorView::Other("Failed to allocate scanner"@))
    } else {
        Ok(handle)
    }
}

impl AudioUnitScanner {
    #[verifier::type_invariant]
    spec fn live(self) -> bool {
        !self.inner.null()
    }

    /// Wraps the handle of a freshly allocated native scanner.
    pub fn new(handle: RackAUScanner) -> (scanner: Result<AudioUnitScanner, Error>)
        ensures
            viewed_outcome_is(scanner, scanner_creation(handle)),
    {
        if handle.is_null() {
            return Err(Error::Other(String::from_str("Failed to allocate scanner")));
        }
        Ok(AudioUnitScanner { inner: handle })
    }

    /// The native handle; never null.
    pub fn handle(&self) -> (handle: RackAUScanner)
        ensures
            handle == self@,
            !handle.null(),
    {
        proof {
            use_type_invariant(self);
        }
        self.inner
    }

    /// Interprets the count of pass one: the number of records to allocate
    /// for pass two. Zero means that there is nothing to fetch.
    pub fn scan_capacity(&self, count: i32) -> (capacity: Result<usize, Error>)
        ensures
            outcome_is(capacity, capacity_outcome(PluginFormat::AudioUnit, count)),
    {
        scan_capacity(PluginFormat::AudioUnit, count)
    }

    /// Interprets the count of pass two: the number of records that were
    /// written and may be read, never more than were allocated.
    pub fn valid_records(&self, capacity: usize, written: i32) -> (valid: Result<usize, Error>)
        ensures
            outcome_is(valid, valid_outcome(PluginFormat::AudioUnit, capacity, written)),
            valid matches Ok(n) ==> n <= capacity && n <= written,
    {
        valid_records(PluginFormat::AudioUnit, capacity, written)
    }

    /// Completes a scan from the counts of both passes and the records read
    /// after pass two.
    pub fn scan_components(&self, count: i32, written: i32, records: &[RackAUPluginInfo]) -> (list:
        Result<Vec<PluginInfo>, Error>)
        ensures
            list_outcome_is(list, scan_outcome(PluginFormat::AudioUnit, count, written, records@)),
            count == 0 ==> (list matches Ok(found) && found@.len() == 0),
    {
        scan_records(PluginFormat::AudioUnit, count, written, records)
    }

    /// Scans as [`scan`](Self::scan) does: AudioUnits are registered with
    /// the system, so the directory plays no part.
    pub fn scan_path(
        &self,
        path: &str,
        count: i32,
        written: i32,
        records: &[RackAUPluginInfo],
    ) -> (list: Result<Vec<PluginInfo>, Error>)
        ensures
            list_outcome_is(list, scan_outcome(PluginFormat::AudioUnit, count, written, records@)),
            count == 0 ==> (list matches Ok(found) && found@.len() == 0),
    {
        self.scan(count, written, records)
    }
}

impl PluginScanner for AudioUnitScanner {
    type Plugin = AudioUnitPlugin;

    type Record = RackAUPluginInfo;

    type Handle = RackAUPlugin;

    open spec fn format(&self) -> PluginFormat {
        PluginFormat::AudioUnit
    }

    open spec fn address(handle: RackAUPlugin) -> usize {
        handle.address
    }

    fn scan(&self, count: i32, written: i32, records: &[RackAUPluginInfo]) -> (list: Result<
        Vec<PluginInfo>,
        Error,
    >) {
        self.scan_components(count, written, records)
    }

    fn load(&self, info: &PluginInfo, handle: RackAUPlugin) -> (plugin: Result<
        AudioUnitPlugin,
        Error,
    >) {
        AudioUnitPlugin::new(info, handle)
    }
}

} // verus!
