//! The error taxonomy shared by every component.

use crate::text::{decimal, i64_to_string, signed_decimal, u64_to_string};
use vstd::prelude::*;
use vstd::string::*;

verus! {

/// The index carried by an invalid-parameter error that comes of a native
/// status alone, which names no index.
pub const NO_INDEX: usize = usize::MAX;

/// Errors that can occur when working with audio plugins.
#[derive(Debug, PartialEq, Eq)]
pub enum Error {
    /// A status code of the native layer that is not decoded further.
    AudioUnit(i32),
    /// The plugin could not be resolved to a live native instance.
    PluginNotFound(String),
    /// An argument that is not valid, such as an index outside the
    /// plugin's parameter range. Carries the index, or [`NO_INDEX`] where
    /// none is known.
    InvalidParameter(usize),
    /// The operation needs an initialized plugin.
    NotInitialized,
    /// The plugin's format is not understood.
    InvalidFormat(String),
    /// Any other failure, described by its message.
    Other(String),
}

/// Mathematical view of an [`Error`]: strings are sequences of characters.
pub enum ErrorView {
    AudioUnit(i32),
    PluginNotFound(Seq<char>),
    InvalidParameter(usize),
    NotInitialized,
    InvalidFormat(Seq<char>),
    Other(Seq<char>),
}

impl View for Error {
    type V = ErrorView;

    open spec fn view(&self) -> ErrorView {
        match *self {
            Error::AudioUnit(code) => ErrorView::AudioUnit(code),
            Error::PluginNotFound(what) => ErrorView::PluginNotFound(what@),
            Error::InvalidParameter(index) => ErrorView::InvalidParameter(index),
            Error::NotInitialized => ErrorView::NotInitialized,
            Error::InvalidFormat(what) => ErrorView::InvalidFormat(what@),
            Error::Other(message) => ErrorView::Other(message@),
        }
    }
}

impl ErrorView {
    /// The text shown to a user for this error.
    pub open spec fn message(self) -> Seq<char> {
        match self {
            ErrorView::AudioUnit(code) => "AudioUnit error: "@ + signed_decimal(code as int)
                + " (OSStatus)"@,
            ErrorView::PluginNotFound(what) => "Plugin not found: "@ + what,
            ErrorView::InvalidParameter(index) => if index == NO_INDEX {
                "Invalid parameter"@
            } else {
                "Invalid parameter index: "@ + decimal(index as nat)
            },
            ErrorView::NotInitialized => "Plugin not initialized"@,
            ErrorView::InvalidFormat(what) => "Invalid plugin format: "@ + what,
            ErrorView::Other(message) => message,
        }
    }
}

/// Whether `produced` is the value or the error that `expected` calls for.
pub open spec fn outcome_is<T>(produced: Result<T, Error>, expected: Result<T, ErrorView>) -> bool {
    match produced {
        Ok(value) => expected == Ok::<T, ErrorView>(value),
        Err(error) => expected == Err::<T, ErrorView>(error@),
    }
}

/// Whether `produced` is an error or a value whose view is what `expected`
/// calls for.
pub open spec fn viewed_outcome_is<T: View>(
    produced: Result<T, Error>,
    expected: Result<T::V, ErrorView>,
) -> bool {
    match produced {
        Ok(value) => expected == Ok::<T::V, ErrorView>(value@),
        Err(error) => expected == Err::<T::V, ErrorView>(error@),
    }
}

impl Error {
    /// Wraps a native status code without interpreting it.
    pub fn from_os_status(status: i32) -> (e: Error)
        ensures
            e == Error::AudioUnit(status),
    {
        Error::AudioUnit(status)
    }

    /// The text shown to a user for this error.
    pub fn message(&self) -> (text: String)
        ensures
            text@ == self@.message(),
    {
        match self {
            Error::AudioUnit(code) => {
                let mut text = String::from_str("AudioUnit error: ");
                let digits = i64_to_string(*code as i64);
                text.append(digits.as_str());
                text.append(" (OSStatus)");
                text
            },
            Error::PluginNotFound(what) => {
                let mut text = String::from_str("Plugin not found: ");
                text.append(what.as_str());
                text
            },
            Error::InvalidParameter(index) => {
                if *index == NO_INDEX {
                    String::from_str("Invalid parameter")
                } else {
                    let mut text = String::from_str("Invalid parameter index: ");
                    let digits = u64_to_string(*index as u64);
                    text.append(digits.as_str());
                    text
                }
            },
            Error::NotInitialized => String::from_str("Plugin not initialized"),
            Error::InvalidFormat(what) => {
                let mut text = String::from_str("Invalid plugin format: ");
                text.append(what.as_str());
                text
            },
            Error::Other(message) => message.clone(),
        }
    }
}

} // verus!
