//! Plain-value counterparts of what crosses the boundary to the native VST3
//! runtime. Status codes and MIDI events are those of
//! [`au::ffi`](crate::au::ffi): both runtimes share them.

use crate::plugin_info::PluginType;
use vstd::prelude::*;

verus! {

/// Opaque handle of a native scanner; the address 0 is the null handle.
#[derive(Debug, Clone, Copy, PartialEq, Eq)]
pub struct RackVST3Scanner {
    pub address: usize,
}

/// Opaque handle of a native plugin instance; the address 0 is the null
/// handle.
#[derive(Debug, Clone, Copy, PartialEq, Eq)]
pub struct RackVST3Plugin {
    pub address: usize,
}

impl RackVST3Scanner {
    /// Whether this is the null handle.
    pub open spec fn null(&self) -> bool {
        self.address == 0
    }

    /// Whether this is the null handle.
    #[verifier::when_used_as_spec(null)]
    pub fn is_null(&self) -> (null: bool)
        ensures
            null == self.null(),
    {
        self.address == 0
    }
}

impl RackVST3Plugin {
    /// Whether this is the null handle.
    pub open spec fn null(&self) -> bool {
        self.address == 0
    }

    /// Whether this is the null handle.
    #[verifier::when_used_as_spec(null)]
    pub fn is_null(&self) -> (null: bool)
        ensures
            null == self.null(),
    {
        self.address == 0
    }
}

/// Kind of plugin as the native runtime reports it.
#[derive(Debug, Clone, Copy, PartialEq, Eq)]
pub enum RackVST3PluginType {
    Effect,
    Instrument,
    Analyzer,
    Spatial,
    Other,
}

impl RackVST3PluginType {
    /// The kind as the rest of the host knows it.
    pub open spec fn plugin_type(&self) -> PluginType {
        match *self {
            RackVST3PluginType::Effect => PluginType::Effect,
            RackVST3PluginType::Instrument => PluginType::Instrument,
            RackVST3PluginType::Analyzer => PluginType::Analyzer,
            RackVST3PluginType::Spatial => PluginType::Spatial,
            RackVST3PluginType::Other => PluginType::Other,
        }
    }

    /// The kind as the rest of the host knows it.
    #[verifier::when_used_as_spec(plugin_type)]
    pub fn to_plugin_type(&self) -> (kind: PluginType)
        ensures
            kind == self.plugin_type(),
    {
        match self {
            RackVST3PluginType::Effect => PluginType::Effect,
            RackVST3PluginType::Instrument => PluginType::Instrument,
            RackVST3PluginType::Analyzer => PluginType::Analyzer,
            RackVST3PluginType::Spatial => PluginType::Spatial,
            RackVST3PluginType::Other => PluginType::Other,
        }
    }
}

/// One plugin record as the native scanner fills it in.
///
/// The text fields are the raw contents of fixed-size buffers. The native
/// side documents them as null-terminated; nothing here relies on that.
#[derive(Debug, Clone)]
pub struct RackVST3PluginInfo {
    pub name: Vec<u8>,
    pub manufacturer: Vec<u8>,
    pub path: Vec<u8>,
    pub unique_id: Vec<u8>,
    pub version: u32,
    pub plugin_type: RackVST3PluginType,
}

} // verus!
