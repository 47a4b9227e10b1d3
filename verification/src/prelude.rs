//! Convenient imports.

pub use crate::au::{AudioUnitGui, AudioUnitPlugin, AudioUnitScanner};
pub use crate::error::Error;
pub use crate::midi::{MidiEvent, MidiEventKind};
pub use crate::plugin_info::{ParameterInfo, PluginInfo, PluginType, PresetInfo};
pub use crate::traits::{PluginInstance, PluginScanner};
pub use crate::vst3::{Vst3Plugin, Vst3Scanner};
