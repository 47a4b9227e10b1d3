//! Enumeration of VST3 plugins.

use crate::au::util::{check_status, map_error, map_error_spec};
use crate::error::{outcome_is, viewed_outcome_is, Error, ErrorView};
use crate::instance::PluginFormat;
use crate::plugin_info::{PluginInfo, PluginInfoView};
use crate::scan::{
    capacity_outcome, descriptor_of, list_outcome_is, read_descriptor, scan_capacity,
    scan_outcome, scan_records, valid_outcome, valid_records, NativeRecord,
};
use crate::text::{c_string, to_c_string};
use crate::traits::PluginScanner;
use crate::vst3::ffi::{RackVST3Plugin, RackVST3PluginInfo, RackVST3Scanner};
use crate::vst3::instance::Vst3Plugin;
use vstd::prelude::*;
use vstd::string::*;

verus! {

/// The descriptor a native record stands for.
pub open spec fn record_descriptor(record: RackVST3PluginInfo) -> Result<
    PluginInfoView,
    ErrorView,
> {
    descriptor_of(
        record.name@,
        record.manufacturer@,
        record.path@,
        record.unique_id@,
        record.version,
        record.plugin_type.plugin_type(),
    )
}

/// Reads a native record into a descriptor. Every text field is read by a
/// search bounded by its buffer.
pub fn convert_plugin_info(c_info: &RackVST3PluginInfo) -> (info: Result<PluginInfo, Error>)
    ensures
        viewed_outcome_is(info, record_descriptor(*c_info)),
{
    read_descriptor(
        c_info.name.as_slice(),
        c_info.manufacturer.as_slice(),
        c_info.path.as_slice(),
        c_info.unique_id.as_slice(),
        c_info.version,
        c_info.plugin_type.to_plugin_type(),
    )
}

impl NativeRecord for RackVST3PluginInfo {
    open spec fn descriptor(&self) -> Result<PluginInfoView, ErrorView> {
        record_descriptor(*self)
    }

    fn convert(&self) -> (info: Result<PluginInfo, Error>) {
        convert_plugin_info(self)
    }
}

/// Scanner for VST3 plugins, which are found in directories.
pub struct Vst3Scanner {
    inner: RackVST3Scanner,
}

impl View for Vst3Scanner {
    type V = RackVST3Scanner;

    closed spec fn view(&self) -> RackVST3Scanner {
        self.inner
    }
}

/// The scanner that comes of the handle the native layer returned and of
/// the status of adding the default search paths to it: a null handle means
/// that none could be allocated.
pub open spec fn scanner_creation(handle: RackVST3Scanner, default_paths: i32) -> Result<
    RackVST3Scanner,
    ErrorView,
> {
    if handle.null() {
        Err(ErrorView::Other("Failed to allocate VST3 scanner"@))
    } else if default_paths != 0 {
        Err(map_error_spec(default_paths))
    } else {
        Ok(handle)
    }
}

/// The search path as the native layer takes it: a C string.
pub open spec fn path_request(path: Seq<char>) -> Result<Seq<u8>, ErrorView> {
    match c_string(path) {
        None => Err(ErrorView::Other("Path contains null byte"@)),
        Some(bytes) => Ok(bytes),
    }
}

/// The outcome of scanning one directory only, given the handle of the
/// scanner allocated for it, the status of adding the directory, and the
/// replies of the two passes.
pub open spec fn scan_path_outcome(
    path: Seq<char>,
    handle: RackVST3Scanner,
    added: i32,
    count: i32,
    written: i32,
    records: Seq<RackVST3PluginInfo>,
) -> Result<Seq<PluginInfoView>, ErrorView> {
    if handle.null() {
        Err(ErrorView::Other("Failed to allocate VST3 scanner"@))
    } else if path_request(path) is Err {
        Err(ErrorView::Other("Path contains null byte"@))
    } else if added != 0 {
        Err(map_error_spec(added))
    } else {
        scan_outcome(PluginFormat::Vst3, count, written, records)
    }
}

impl Vst3Scanner {
    #[verifier::type_invariant]
    spec fn live(self) -> bool {
        !self.inner.null()
    }

    /// Wraps the handle of a freshly allocated native scanner to which the
    /// default search paths were added with status `default_paths`.
    pub fn new(handle: RackVST3Scanner, default_paths: i32) -> (scanner: Result<Vst3Scanner, Error>)
        ensures
            viewed_outcome_is(scanner, scanner_creation(handle, default_paths)),
    {
        if handle.is_null() {
            return Err(Error::Other(String::from_str("Failed to allocate VST3 scanner")));
        }
        if default_paths != 0 {
            return Err(map_error(default_paths));
        }
        Ok(Vst3Scanner { inner: handle })
    }

    /// Wraps the handle of a freshly allocated native scanner that has no
    /// search path yet.
    pub fn new_empty(handle: RackVST3Scanner) -> (scanner: Result<Vst3Scanner, Error>)
        ensures
            viewed_outcome_is(scanner, scanner_creation(handle, 0)),
    {
        Vst3Scanner::new(handle, 0)
    }

    /// Marshals a search path to add to the scanner.
    pub fn add_path(&self, path: &str) -> (request: Result<Vec<u8>, Error>)
        ensures
            viewed_outcome_is(request, path_request(path@)),
    {
        match to_c_string(path) {
            Some(bytes) => Ok(bytes),
            None => Err(Error::Other(String::from_str("Path contains null byte"))),
        }
    }

    /// The native handle; never null.
    pub fn handle(&self) -> (handle: RackVST3Scanner)
        ensures
            handle == self@,
            !handle.null(),
    {
        proof {
            use_type_invariant(self);
        }
        self.inner
    }

    /// Interprets the count of pass one: the number of records to allocate
    /// for pass two. Zero means that there is nothing to fetch.
    pub fn scan_capacity(&self, count: i32) -> (capacity: Result<usize, Error>)
        ensures
            outcome_is(capacity, capacity_outcome(PluginFormat::Vst3, count)),
    {
        scan_capacity(PluginFormat::Vst3, count)
    }

    /// Interprets the count of pass two: the number of records that were
    /// written and may be read, never more than were allocated.
    pub fn valid_records(&self, capacity: usize, written: i32) -> (valid: Result<usize, Error>)
        ensures
            outcome_is(valid, valid_outcome(PluginFormat::Vst3, capacity, written)),
            valid matches Ok(n) ==> n <= capacity && n <= written,
    {
        valid_records(PluginFormat::Vst3, capacity, written)
    }

    /// Completes a scan from the counts of both passes and the records read
    /// after pass two.
    pub fn scan_plugins(&self, count: i32, written: i32, records: &[RackVST3PluginInfo]) -> (list:
        Result<Vec<PluginInfo>, Error>)
        ensures
            list_outcome_is(list, scan_outcome(PluginFormat::Vst3, count, written, records@)),
            count == 0 ==> (list matches Ok(found) && found@.len() == 0),
    {
        scan_records(PluginFormat::Vst3, count, written, records)
    }

    /// Scans one directory only, through a scanner of its own that has no
    /// other search path.
    pub fn scan_path(
        &self,
        path: &str,
        handle: RackVST3Scanner,
        added: i32,
        count: i32,
        written: i32,
        records: &[RackVST3PluginInfo],
    ) -> (list: Result<Vec<PluginInfo>, Error>)
        ensures
            list_outcome_is(
                list,
                scan_path_outcome(path@, handle, added, count, written, records@),
            ),
    {
        let scanner = match Vst3Scanner::new_empty(handle) {
            Ok(scanner) => scanner,
            Err(error) => { return Err(error); },
        };
        match scanner.add_path(path) {
            Ok(_) => {},
            Err(error) => { return Err(error); },
        }
        match check_status(added) {
            Ok(_) => {},
            Err(error) => { return Err(error); },
        }
        scanner.scan_plugins(count, written, records)
    }
}

impl PluginScanner for Vst3Scanner {
    type Plugin = Vst3Plugin;

    type Record = RackVST3PluginInfo;

    type Handle = RackVST3Plugin;

    open spec fn format(&self) -> PluginFormat {
        PluginFormat::Vst3
    }

    open spec fn address(handle: RackVST3Plugin) -> usize {
        handle.address
    }

    fn scan(&self, count: i32, written: i32, records: &[RackVST3PluginInfo]) -> (list: Result<
        Vec<PluginInfo>,
        Error,
    >) {
        self.scan_plugins(count, written, records)
    }

    fn load(&self, info: &PluginInfo, handle: RackVST3Plugin) -> (plugin: Result<
        Vst3Plugin,
        Error,
    >) {
        Vst3Plugin::new(info, handle)
    }
}

} // verus!
