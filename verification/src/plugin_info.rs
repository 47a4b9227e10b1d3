//! Descriptors of plugins, parameters and presets.

use crate::text::{decimal, u64_to_string};
use vstd::prelude::*;
use vstd::string::*;

verus! {

/// Kind of audio plugin.
#[derive(Debug, Clone, Copy, PartialEq, Eq)]
pub enum PluginType {
    /// Audio effect: processes audio input to output.
    Effect,
    /// Instrument or generator: produces audio from MIDI events.
    Instrument,
    /// Mixer.
    Mixer,
    /// Format converter.
    FormatConverter,
    /// Analyzer.
    Analyzer,
    /// Spatial processor.
    Spatial,
    /// Any other kind.
    Other,
}

impl PluginType {
    /// The name of the kind, as shown in descriptions.
    pub open spec fn label(self) -> Seq<char> {
        match self {
            PluginType::Effect => "Effect"@,
            PluginType::Instrument => "Instrument"@,
            PluginType::Mixer => "Mixer"@,
            PluginType::FormatConverter => "FormatConverter"@,
            PluginType::Analyzer => "Analyzer"@,
            PluginType::Spatial => "Spatial"@,
            PluginType::Other => "Other"@,
        }
    }

    /// The name of the kind, as shown in descriptions.
    pub fn name(&self) -> (text: &'static str)
        ensures
            text@ == self.label(),
    {
        match self {
            PluginType::Effect => "Effect",
            PluginType::Instrument => "Instrument",
            PluginType::Mixer => "Mixer",
            PluginType::FormatConverter => "FormatConverter",
            PluginType::Analyzer => "Analyzer",
            PluginType::Spatial => "Spatial",
            PluginType::Other => "Other",
        }
    }
}

/// Identifies a discoverable plugin.
#[derive(Debug, Clone)]
pub struct PluginInfo {
    /// Display name.
    pub name: String,
    /// Manufacturer or vendor name.
    pub manufacturer: String,
    /// Plugin version.
    pub version: u32,
    /// Kind of plugin.
    pub plugin_type: PluginType,
    /// Filesystem location, or a sentinel for system-registered plugins.
    pub path: String,
    /// Opaque identifier used to resolve the plugin again at load time.
    pub unique_id: String,
}

/// Mathematical view of a [`PluginInfo`].
pub struct PluginInfoView {
    pub name: Seq<char>,
    pub manufacturer: Seq<char>,
    pub version: u32,
    pub plugin_type: PluginType,
    pub path: Seq<char>,
    pub unique_id: Seq<char>,
}

impl View for PluginInfo {
    type V = PluginInfoView;

    open spec fn view(&self) -> PluginInfoView {
        PluginInfoView {
            name: self.name@,
            manufacturer: self.manufacturer@,
            version: self.version,
            plugin_type: self.plugin_type,
            path: self.path@,
            unique_id: self.unique_id@,
        }
    }
}

impl PluginInfoView {
    /// One-line description: name, manufacturer, version and kind.
    pub open spec fn description(self) -> Seq<char> {
        self.name + " by "@ + self.manufacturer + " (v"@ + decimal(self.version as nat) + ") ["@
            + self.plugin_type.label() + "]"@
    }
}

impl PluginInfo {
    /// Builds a descriptor from its parts.
    pub fn new(
        name: String,
        manufacturer: String,
        version: u32,
        plugin_type: PluginType,
        path: String,
        unique_id: String,
    ) -> (info: PluginInfo)
        ensures
            info == (PluginInfo { name, manufacturer, version, plugin_type, path, unique_id }),
    {
        PluginInfo { name, manufacturer, version, plugin_type, path, unique_id }
    }

    /// An independent copy of the descriptor.
    pub fn duplicate(&self) -> (copy: PluginInfo)
        ensures
            copy == *self,
    {
        PluginInfo {
            name: self.name.clone(),
            manufacturer: self.manufacturer.clone(),
            version: self.version,
            plugin_type: self.plugin_type,
            path: self.path.clone(),
            unique_id: self.unique_id.clone(),
        }
    }

    /// One-line description: name, manufacturer, version and kind.
    pub fn describe(&self) -> (text: String)
        ensures
            text@ == self@.description(),
    {
        let mut text = self.name.clone();
        text.append(" by ");
        text.append(self.manufacturer.as_str());
        text.append(" (v");
        let digits = u64_to_string(self.version as u64);
        text.append(digits.as_str());
        text.append(") [");
        text.append(self.plugin_type.name());
        text.append("]");
        text
    }
}

/// Describes one parameter of a plugin.
///
/// `V` is the type of a value in the parameter's physical unit. Values
/// exchanged at run time are normalized to `0..=1`; the physical value of a
/// normalized value `n` is `min + n * (max - min)`. The host core only
/// carries physical values, it never computes with them.
#[derive(Debug, Clone)]
pub struct ParameterInfo<V> {
    /// Dense, zero-based parameter index.
    pub index: usize,
    /// Display name.
    pub name: String,
    /// Physical minimum.
    pub min: V,
    /// Physical maximum.
    pub max: V,
    /// Physical default.
    pub default: V,
    /// Unit label; may be empty.
    pub unit: String,
}

/// Mathematical view of a [`ParameterInfo`].
pub struct ParameterInfoView<V> {
    pub index: usize,
    pub name: Seq<char>,
    pub min: V,
    pub max: V,
    pub default: V,
    pub unit: Seq<char>,
}

impl<V> View for ParameterInfo<V> {
    type V = ParameterInfoView<V>;

    open spec fn view(&self) -> ParameterInfoView<V> {
        ParameterInfoView {
            index: self.index,
            name: self.name@,
            min: self.min,
            max: self.max,
            default: self.default,
            unit: self.unit@,
        }
    }
}

impl<V> ParameterInfo<V> {
    /// Builds a descriptor from its parts.
    pub fn new(index: usize, name: String, min: V, max: V, default: V, unit: String) -> (info:
        ParameterInfo<V>)
        ensures
            info == (ParameterInfo { index, name, min, max, default, unit }),
    {
        ParameterInfo { index, name, min, max, default, unit }
    }
}

/// Describes one factory preset of a plugin.
///
/// `index` is the position in the enumeration; `preset_number` is the only
/// value that loads the preset. The two are not interchangeable.
#[derive(Debug, Clone)]
pub struct PresetInfo {
    /// Position in the enumeration.
    pub index: usize,
    /// Display name.
    pub name: String,
    /// Opaque number that loads the preset.
    pub preset_number: i32,
}

/// Mathematical view of a [`PresetInfo`].
pub struct PresetInfoView {
    pub index: usize,
    pub name: Seq<char>,
    pub preset_number: i32,
}

impl View for PresetInfo {
    type V = PresetInfoView;

    open spec fn view(&self) -> PresetInfoView {
        PresetInfoView { index: self.index, name: self.name@, preset_number: self.preset_number }
    }
}

impl PresetInfo {
    /// Builds a descriptor from its parts.
    pub fn new(index: usize, name: String, preset_number: i32) -> (info: PresetInfo)
        ensures
            info == (PresetInfo { index, name, preset_number }),
    {
        PresetInfo { index, name, preset_number }
    }
}

} // verus!
