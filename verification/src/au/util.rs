//! Interpretation of native status codes and of fixed-size text buffers.

use crate::au::ffi::{
    RACK_AU_ERROR_GENERIC, RACK_AU_ERROR_INVALID_PARAM, RACK_AU_ERROR_NOT_FOUND,
    RACK_AU_ERROR_NOT_INITIALIZED, RACK_AU_OK,
};
use crate::error::{outcome_is, viewed_outcome_is, Error, ErrorView, NO_INDEX};
use crate::text::{decode_text, find_nul, first_nul, utf8_error_text};
use vstd::prelude::*;
use vstd::slice::*;
use vstd::string::*;
use vstd::utf8::*;

verus! {

/// The error a failed native call stands for.
///
/// The four reserved codes have a meaning of their own: generic, not found,
/// invalid parameter and not initialized. Every other code is kept as an
/// opaque native status. A status names no index, so the invalid-parameter
/// error carries none.
pub open spec fn map_error_spec(code: i32) -> ErrorView {
    if code == -1 {
        ErrorView::Other("Generic AudioUnit scanner error"@)
    } else if code == -2 {
        ErrorView::PluginNotFound("AudioUnit not found"@)
    } else if code == -3 {
        ErrorView::InvalidParameter(NO_INDEX)
    } else if code == -4 {
        ErrorView::NotInitialized
    } else {
        ErrorView::AudioUnit(code)
    }
}

/// The error that the status code of a failed native call stands for.
pub fn map_error(code: i32) -> (error: Error)
    ensures
        error@ == map_error_spec(code),
{
    if code == RACK_AU_ERROR_GENERIC {
        Error::Other(String::from_str("Generic AudioUnit scanner error"))
    } else if code == RACK_AU_ERROR_NOT_FOUND {
        Error::PluginNotFound(String::from_str("AudioUnit not found"))
    } else if code == RACK_AU_ERROR_INVALID_PARAM {
        Error::InvalidParameter(NO_INDEX)
    } else if code == RACK_AU_ERROR_NOT_INITIALIZED {
        Error::NotInitialized
    } else {
        Error::from_os_status(code)
    }
}

/// The error a failed native call stands for, where the call was about the
/// argument `index`: an invalid-parameter status then names that index.
pub open spec fn map_error_at_spec(code: i32, index: usize) -> ErrorView {
    if code == -3 {
        ErrorView::InvalidParameter(index)
    } else {
        map_error_spec(code)
    }
}

/// The error that the status code of a failed native call about the
/// argument `index` stands for.
pub fn map_error_at(code: i32, index: usize) -> (error: Error)
    ensures
        error@ == map_error_at_spec(code, index),
{
    if code == RACK_AU_ERROR_INVALID_PARAM {
        Error::InvalidParameter(index)
    } else {
        map_error(code)
    }
}

/// The outcome of a native call that reports only a status.
pub open spec fn status_outcome(status: i32) -> Result<(), ErrorView> {
    if status == 0 {
        Ok(())
    } else {
        Err(map_error_spec(status))
    }
}

/// Interprets the status of a native call: success on zero, the mapped
/// error on every other value.
pub fn check_status(status: i32) -> (outcome: Result<(), Error>)
    ensures
        outcome_is(outcome, status_outcome(status)),
{
    if status != RACK_AU_OK {
        Err(map_error(status))
    } else {
        Ok(())
    }
}

/// The message for a text buffer that holds no zero byte.
pub open spec fn unterminated_message(field_name: Seq<char>) -> Seq<char> {
    field_name + " not null-terminated within buffer (potential C++ bug)"@
}

/// The message for a text buffer whose contents are not UTF-8.
pub open spec fn invalid_utf8_message(field_name: Seq<char>, reason: Seq<char>) -> Seq<char> {
    "Invalid UTF-8 in "@ + field_name + ": "@ + reason
}

/// The text a fixed-size buffer holds: the characters encoded by the bytes
/// before the first zero byte.
///
/// A buffer without a zero byte and a buffer whose text is not UTF-8 are
/// errors that name the field.
pub open spec fn c_array_text(bytes: Seq<u8>, field_name: Seq<char>) -> Result<
    Seq<char>,
    ErrorView,
> {
    let end = first_nul(bytes);
    if end >= bytes.len() {
        Err(ErrorView::Other(unterminated_message(field_name)))
    } else if !valid_utf8(bytes.subrange(0, end)) {
        Err(
            ErrorView::Other(
                invalid_utf8_message(field_name, utf8_error_text(bytes.subrange(0, end))),
            ),
        )
    } else {
        Ok(decode_utf8(bytes.subrange(0, end)))
    }
}

/// The error for a text buffer whose contents are not UTF-8, given the
/// reason the decoder reported.
pub fn invalid_utf8_error(field_name: &str, reason: &str) -> (error: Error)
    ensures
        error@ == ErrorView::Other(invalid_utf8_message(field_name@, reason@)),
{
    let mut message = String::from_str("Invalid UTF-8 in ");
    message.append(field_name);
    message.append(": ");
    message.append(reason);
    Error::Other(message)
}

/// Reads the text of a fixed-size buffer filled in by the native side.
///
/// The terminator is searched for within the buffer only, so a missing
/// terminator is reported and never read past.
pub fn c_array_to_string(arr: &[u8], field_name: &str) -> (text: Result<String, Error>)
    ensures
        viewed_outcome_is(text, c_array_text(arr@, field_name@)),
{
    let end = find_nul(arr);
    if end >= arr.len() {
        let mut message = String::from_str(field_name);
        message.append(" not null-terminated within buffer (potential C++ bug)");
        return Err(Error::Other(message));
    }
    match decode_text(slice_subrange(arr, 0, end)) {
        Ok(text) => Ok(text),
        Err(reason) => Err(invalid_utf8_error(field_name, reason.as_str())),
    }
}

} // verus!
