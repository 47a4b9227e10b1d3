//! The handle of a plugin's graphical interface.
//!
//! A GUI is created asynchronously: the native layer answers a creation
//! request once, with a live handle or with a failure code. Every operation
//! on the handle, and its disposal, belongs to the thread that runs the
//! platform's UI event loop; the type system cannot enforce that, so it is
//! an obligation of the caller.

use crate::au::ffi::RackAUGui;
use crate::au::util::{map_error, map_error_spec};
use crate::error::{outcome_is, viewed_outcome_is, Error, ErrorView};
use crate::text::{c_string, to_c_string};
use vstd::prelude::*;

verus! {

/// A live GUI of a plugin.
pub struct AudioUnitGui {
    handle: RackAUGui,
}

impl View for AudioUnitGui {
    type V = RackAUGui;

    closed spec fn view(&self) -> RackAUGui {
        self.handle
    }
}

/// The outcome of a creation request, given the handle and the code the
/// native layer answered with: a null handle is a failure with that code.
pub open spec fn gui_creation(handle: RackAUGui, error_code: i32) -> Result<RackAUGui, ErrorView> {
    if handle.null() {
        Err(map_error_spec(error_code))
    } else {
        Ok(handle)
    }
}

/// The outcome of a native call on a GUI that reports only a status: any
/// status but zero is kept as an opaque native code.
pub open spec fn gui_status(status: i32) -> Result<(), ErrorView> {
    if status != 0 {
        Err(ErrorView::AudioUnit(status))
    } else {
        Ok(())
    }
}

/// The size of a view, given the status of the native call and the width
/// and height it wrote.
pub open spec fn size_outcome<V>(status: i32, width: V, height: V) -> Result<(V, V), ErrorView> {
    if status != 0 {
        Err(ErrorView::AudioUnit(status))
    } else {
        Ok((width, height))
    }
}

/// The title as the native layer takes it: nothing for the default title,
/// else the bytes of the title followed by a zero byte.
pub open spec fn window_title(title: Option<&str>) -> Option<Seq<u8>> {
    match title {
        None => None,
        Some(text) => c_string(text@),
    }
}

impl AudioUnitGui {
    #[verifier::type_invariant]
    spec fn live(self) -> bool {
        !self.handle.null()
    }

    /// Interprets the answer to a creation request.
    pub fn from_raw(handle: RackAUGui, error_code: i32) -> (gui: Result<AudioUnitGui, Error>)
        ensures
            viewed_outcome_is(gui, gui_creation(handle, error_code)),
    {
        if handle.is_null() {
            Err(map_error(error_code))
        } else {
            Ok(AudioUnitGui { handle })
        }
    }

    /// Hands the answer to a creation request to the callback that waits
    /// for it. The callback is consumed: it runs once, whether creation
    /// succeeded or failed.
    pub fn deliver<F>(callback: F, handle: RackAUGui, error_code: i32) -> (answer: Result<
        (),
        Error,
    >) where F: FnOnce(Result<AudioUnitGui, Error>) -> Result<(), Error>
        requires
            forall|outcome: Result<AudioUnitGui, Error>|
                viewed_outcome_is(outcome, gui_creation(handle, error_code)) ==> call_requires(
                    callback,
                    (outcome,),
                ),
        ensures
            exists|outcome: Result<AudioUnitGui, Error>|
                viewed_outcome_is(outcome, gui_creation(handle, error_code)) && call_ensures(
                    callback,
                    (outcome,),
                    answer,
                ),
    {
        let outcome = AudioUnitGui::from_raw(handle, error_code);
        callback(outcome)
    }

    /// The native handle; never null.
    pub fn handle(&self) -> (handle: RackAUGui)
        ensures
            handle == self@,
            !handle.null(),
    {
        proof {
            use_type_invariant(self);
        }
        self.handle
    }

    /// The native view to embed, given the address the native layer
    /// returned for it; `None` for a null address.
    pub fn get_native_view(&self, view: usize) -> (native: Option<usize>)
        ensures
            view == 0 ==> native is None,
            view != 0 ==> native == Some(view),
    {
        if view == 0 {
            None
        } else {
            Some(view)
        }
    }

    /// The size of the view, given the status of the native call and the
    /// width and height it wrote.
    pub fn get_size<V>(&self, status: i32, width: V, height: V) -> (size: Result<(V, V), Error>)
        ensures
            outcome_is(size, size_outcome(status, width, height)),
    {
        if status != 0 {
            return Err(Error::from_os_status(status));
        }
        Ok((width, height))
    }

    /// Marshals the title of the window to show: nothing for the default
    /// title, else the title as a C string.
    pub fn show_window(&self, title: Option<&str>) -> (c_title: Option<Vec<u8>>)
        requires
            title matches Some(text) ==> c_string(text@) is Some,
        ensures
            window_title(title) is None ==> c_title is None,
            window_title(title) matches Some(bytes) ==> (c_title matches Some(b) && b@ == bytes),
    {
        match title {
            None => None,
            Some(text) => to_c_string(text),
        }
    }

    /// Interprets the status of the native call that showed the window.
    pub fn show_window_reply(&self, status: i32) -> (outcome: Result<(), Error>)
        ensures
            outcome_is(outcome, gui_status(status)),
    {
        if status != 0 {
            return Err(Error::from_os_status(status));
        }
        Ok(())
    }

    /// Interprets the status of the native call that hid the window.
    pub fn hide_window(&self, status: i32) -> (outcome: Result<(), Error>)
        ensures
            outcome_is(outcome, gui_status(status)),
    {
        if status != 0 {
            return Err(Error::from_os_status(status));
        }
        Ok(())
    }
}

} // verus!
