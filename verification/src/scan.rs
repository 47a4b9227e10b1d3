//! The two-pass enumeration protocol, independent of the plugin format.
//!
//! Pass one asks the native layer how many plugins there are. Pass two
//! hands it an array of that many records to fill in. The registry may
//! change between the two passes, so the number of records that may be read
//! afterwards is the smaller of the two counts: records beyond it were never
//! written.

use crate::au::util::{c_array_text, c_array_to_string, map_error, map_error_spec};
use crate::error::{outcome_is, viewed_outcome_is, Error, ErrorView};
use crate::instance::PluginFormat;
use crate::plugin_info::{PluginInfo, PluginInfoView, PluginType};
use vstd::prelude::*;

verus! {

/// The descriptor that the fields of a native record stand for.
///
/// The four text fields are read in the order name, manufacturer, path,
/// identifier, each up to the first zero byte of its buffer; the first that
/// cannot be read decides the error.
pub open spec fn descriptor_of(
    name: Seq<u8>,
    manufacturer: Seq<u8>,
    path: Seq<u8>,
    unique_id: Seq<u8>,
    version: u32,
    plugin_type: PluginType,
) -> Result<PluginInfoView, ErrorView> {
    match c_array_text(name, "plugin name"@) {
        Err(error) => Err(error),
        Ok(name) => match c_array_text(manufacturer, "manufacturer"@) {
            Err(error) => Err(error),
            Ok(manufacturer) => match c_array_text(path, "path"@) {
                Err(error) => Err(error),
                Ok(path) => match c_array_text(unique_id, "unique_id"@) {
                    Err(error) => Err(error),
                    Ok(unique_id) => Ok(
                        PluginInfoView {
                            name,
                            manufacturer,
                            version,
                            plugin_type,
                            path,
                            unique_id,
                        },
                    ),
                },
            },
        },
    }
}

/// Reads the fields of a native record into a descriptor. Every text field
/// is read by a search bounded by its buffer.
pub fn read_descriptor(
    name: &[u8],
    manufacturer: &[u8],
    path: &[u8],
    unique_id: &[u8],
    version: u32,
    plugin_type: PluginType,
) -> (info: Result<PluginInfo, Error>)
    ensures
        viewed_outcome_is(
            info,
            descriptor_of(name@, manufacturer@, path@, unique_id@, version, plugin_type),
        ),
{
    let name = match c_array_to_string(name, "plugin name") {
        Ok(text) => text,
        Err(error) => { return Err(error); },
    };
    let manufacturer = match c_array_to_string(manufacturer, "manufacturer") {
        Ok(text) => text,
        Err(error) => { return Err(error); },
    };
    let path = match c_array_to_string(path, "path") {
        Ok(text) => text,
        Err(error) => { return Err(error); },
    };
    let unique_id = match c_array_to_string(unique_id, "unique_id") {
        Ok(text) => text,
        Err(error) => { return Err(error); },
    };
    Ok(PluginInfo::new(name, manufacturer, version, plugin_type, path, unique_id))
}

/// A plugin record as a native scanner fills it in.
pub trait NativeRecord {
    /// The descriptor the record stands for, or the error that reading it
    /// gives.
    spec fn descriptor(&self) -> Result<PluginInfoView, ErrorView>;

    /// Reads the record into a descriptor.
    fn convert(&self) -> (info: Result<PluginInfo, Error>)
        ensures
            viewed_outcome_is(info, self.descriptor()),
    ;
}

/// The error a negative count stands for: an AudioUnit scanner reports it as
/// an opaque status, a VST3 scanner has it mapped.
pub open spec fn count_error(format: PluginFormat, count: i32) -> ErrorView {
    match format {
        PluginFormat::AudioUnit => ErrorView::AudioUnit(count),
        PluginFormat::Vst3 => map_error_spec(count),
    }
}

/// The number of records to allocate for pass two, given the count of pass
/// one. Zero means that there is nothing to fetch.
pub open spec fn capacity_outcome(format: PluginFormat, count: i32) -> Result<usize, ErrorView> {
    if count < 0 {
        Err(count_error(format, count))
    } else {
        Ok(count as usize)
    }
}

/// The smaller of two numbers.
pub open spec fn smaller(a: int, b: int) -> int {
    if a <= b {
        a
    } else {
        b
    }
}

/// The number of records that were written and may be read, given the
/// capacity handed to pass two and the count it returned.
pub open spec fn valid_outcome(format: PluginFormat, capacity: usize, written: i32) -> Result<
    usize,
    ErrorView,
> {
    if written < 0 {
        Err(count_error(format, written))
    } else {
        Ok(smaller(written as int, capacity as int) as usize)
    }
}

/// The descriptors of `records`, in order, or the error of the first record
/// that cannot be read.
pub open spec fn descriptors<R: NativeRecord>(records: Seq<R>) -> Result<
    Seq<PluginInfoView>,
    ErrorView,
>
    decreases records.len(),
{
    if records.len() == 0 {
        Ok(Seq::empty())
    } else {
        match descriptors(records.drop_last()) {
            Err(error) => Err(error),
            Ok(before) => match records.last().descriptor() {
                Err(error) => Err(error),
                Ok(info) => Ok(before.push(info)),
            },
        }
    }
}

/// The outcome of a whole scan, given the counts of both passes and the
/// records read after pass two.
///
/// With no plugin present the scan yields an empty list and pass two is
/// never looked at. Otherwise the list holds the descriptors of the records
/// that both counts vouch for.
pub open spec fn scan_outcome<R: NativeRecord>(
    format: PluginFormat,
    count: i32,
    written: i32,
    records: Seq<R>,
) -> Result<Seq<PluginInfoView>, ErrorView> {
    if count < 0 {
        Err(count_error(format, count))
    } else if count == 0 {
        Ok(Seq::empty())
    } else if written < 0 {
        Err(count_error(format, written))
    } else {
        descriptors(
            records.take(smaller(smaller(written as int, count as int), records.len() as int)),
        )
    }
}

/// The views of a list of descriptors.
pub open spec fn info_views(list: Seq<PluginInfo>) -> Seq<PluginInfoView> {
    list.map_values(|info: PluginInfo| info@)
}

/// Whether `produced` is the list of descriptors or the error that
/// `expected` calls for.
pub open spec fn list_outcome_is(
    produced: Result<Vec<PluginInfo>, Error>,
    expected: Result<Seq<PluginInfoView>, ErrorView>,
) -> bool {
    match produced {
        Ok(list) => expected == Ok::<Seq<PluginInfoView>, ErrorView>(info_views(list@)),
        Err(error) => expected == Err::<Seq<PluginInfoView>, ErrorView>(error@),
    }
}

/// Once a record cannot be read, no longer prefix of the records can.
pub proof fn lemma_descriptors_error<R: NativeRecord>(records: Seq<R>, failed: int, upto: int)
    requires
        0 <= failed <= upto <= records.len(),
        descriptors(records.take(failed)) is Err,
    ensures
        descriptors(records.take(upto)) == descriptors(records.take(failed)),
    decreases upto - failed,
{
    if failed < upto {
        lemma_descriptors_error(records, failed, upto - 1);
        assert(records.take(upto).drop_last() == records.take(upto - 1));
    }
}

/// A scan with no plugin present yields an empty list, not an error,
/// whatever pass two would have answered.
pub proof fn lemma_scan_nothing<R: NativeRecord>(
    format: PluginFormat,
    written: i32,
    records: Seq<R>,
)
    ensures
        scan_outcome(format, 0, written, records) == Ok::<Seq<PluginInfoView>, ErrorView>(
            Seq::empty(),
        ),
{
}

/// A successful scan yields no more descriptors than either pass counted.
pub proof fn lemma_scan_bounded<R: NativeRecord>(
    format: PluginFormat,
    count: i32,
    written: i32,
    records: Seq<R>,
)
    ensures
        scan_outcome(format, count, written, records) matches Ok(list) ==> list.len() <= count
            && list.len() <= records.len() && (count > 0 ==> list.len() <= written),
{
    if count > 0 && written >= 0 {
        lemma_descriptors_len(
            records.take(smaller(smaller(written as int, count as int), records.len() as int)),
        );
    }
}

/// Reading records yields one descriptor per record.
pub proof fn lemma_descriptors_len<R: NativeRecord>(records: Seq<R>)
    ensures
        descriptors(records) matches Ok(list) ==> list.len() == records.len(),
    decreases records.len(),
{
    if records.len() > 0 {
        lemma_descriptors_len(records.drop_last());
    }
}

fn make_count_error(format: PluginFormat, count: i32) -> (error: Error)
    ensures
        error@ == count_error(format, count),
{
    match format {
        PluginFormat::AudioUnit => Error::from_os_status(count),
        PluginFormat::Vst3 => map_error(count),
    }
}

/// Interprets the count of pass one: the number of records to allocate for
/// pass two.
pub fn scan_capacity(format: PluginFormat, count: i32) -> (capacity: Result<usize, Error>)
    ensures
        outcome_is(capacity, capacity_outcome(format, count)),
{
    if count < 0 {
        Err(make_count_error(format, count))
    } else {
        Ok(count as usize)
    }
}

/// Interprets the count of pass two: the number of records that were
/// written and may be read.
pub fn valid_records(format: PluginFormat, capacity: usize, written: i32) -> (valid: Result<
    usize,
    Error,
>)
    ensures
        outcome_is(valid, valid_outcome(format, capacity, written)),
{
    if written < 0 {
        return Err(make_count_error(format, written));
    }
    let written: usize = written as usize;
    if written <= capacity {
        Ok(written)
    } else {
        Ok(capacity)
    }
}

/// Reads the first `valid` records into descriptors; the first record that
/// cannot be read ends the conversion with its error.
pub fn convert_records<R: NativeRecord>(records: &[R], valid: usize) -> (list: Result<
    Vec<PluginInfo>,
    Error,
>)
    requires
        valid <= records@.len(),
    ensures
        list_outcome_is(list, descriptors(records@.take(valid as int))),
{
    let mut list: Vec<PluginInfo> = Vec::with_capacity(valid);
    let mut i: usize = 0;
    assert(info_views(list@) == Seq::<PluginInfoView>::empty());
    assert(records@.take(0).len() == 0);
    while i < valid
        invariant
            i <= valid <= records@.len(),
            descriptors(records@.take(i as int)) == Ok::<Seq<PluginInfoView>, ErrorView>(
                info_views(list@),
            ),
        decreases valid - i,
    {
        proof {
            assert(records@.take(i + 1).drop_last() == records@.take(i as int));
            assert(records@.take(i + 1).last() == records@[i as int]);
        }
        match records[i].convert() {
            Ok(info) => {
                proof {
                    assert(info_views(list@.push(info)) == info_views(list@).push(info@));
                }
                list.push(info);
            },
            Err(error) => {
                proof {
                    lemma_descriptors_error(records@, i + 1, valid as int);
                }
                return Err(error);
            },
        }
        i = i + 1;
    }
    Ok(list)
}

/// Completes a scan from the counts of both passes and the records read
/// after pass two.
pub fn scan_records<R: NativeRecord>(
    format: PluginFormat,
    count: i32,
    written: i32,
    records: &[R],
) -> (list: Result<Vec<PluginInfo>, Error>)
    ensures
        list_outcome_is(list, scan_outcome(format, count, written, records@)),
        count == 0 ==> (list matches Ok(found) && found@.len() == 0),
{
    if count < 0 {
        return Err(make_count_error(format, count));
    }
    if count == 0 {
        let empty: Vec<PluginInfo> = Vec::new();
        assert(info_views(empty@) == Seq::<PluginInfoView>::empty());
        return Ok(empty);
    }
    if written < 0 {
        return Err(make_count_error(format, written));
    }
    let count: usize = count as usize;
    let written: usize = written as usize;
    let vouched: usize = if written <= count {
        written
    } else {
        count
    };
    let valid: usize = if vouched <= records.len() {
        vouched
    } else {
        records.len()
    };
    convert_records(records, valid)
}

} // verus!
