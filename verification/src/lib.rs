//! Verified core of an audio plugin host.
//!
//! A host loads third-party audio plugins (AudioUnit and VST3) through a
//! native runtime that it reaches over a narrow C-shaped interface. This
//! crate holds every decision the host makes around that interface:
//!
//! - which requests may be issued in which state of an instance,
//! - how their arguments are marshalled for the native layer,
//! - how each native reply is interpreted, and
//! - how much of a buffer that the native layer filled may be read.
//!
//! The native calls themselves are made by the embedding application. It
//! hands the replies back as plain values, so that each function here is a
//! step from a state and a reply to the next state and the next request.
//!
//! An initialization, for example, takes three steps:
//!
//! ```text
//! let block = plugin.initialize(512)?;                     // validate and marshal
//! let status = native_initialize(handle, 48000.0, block);  // the application's call
//! plugin.initialize_reply(512, status, inputs, outputs)?;  // interpret the reply
//! ```
//!
//! | Module | Contents |
//! |---|---|
//! | [`error`] | the error taxonomy |
//! | [`midi`] | MIDI events and their constructors |
//! | [`plugin_info`] | descriptors of plugins, parameters and presets |
//! | [`traits`] | the contracts of scanners and instances |
//! | [`instance`] | the lifecycle of an instance, whatever its format |
//! | [`scan`] | the two-pass enumeration protocol |
//! | [`au`], [`vst3`] | scanners, instances and native records per format |
//! | [`text`] | decimal rendering and C string conversions |

pub mod au;
pub mod error;
pub mod instance;
pub mod midi;
pub mod plugin_info;
pub mod prelude;
pub mod scan;
pub mod text;
pub mod traits;
pub mod vst3;

pub use au::{AudioUnitGui, AudioUnitPlugin, AudioUnitScanner};
pub use error::{Error, ErrorView};
pub use midi::{MidiEvent, MidiEventKind};
pub use plugin_info::{ParameterInfo, PluginInfo, PluginType, PresetInfo};
pub use traits::{PluginInstance, PluginScanner};
pub use vst3::{Vst3Plugin, Vst3Scanner};
