//! Values as the detail view lists them, and the sorting of plugin files
//! into those of the game, those of the Creation Club, and mods.

use vstd::prelude::*;
use crate::text::{same_text, starts_with};

verus! {

/// Where a plugin file comes from.
#[derive(Debug, Clone, Copy, PartialEq, Eq, Structural)]
pub enum PluginType {
    /// The game itself or one of its official add-ons.
    Native,
    CreationClub,
    Mod,
    NotAPlugin,
}

/// What a listed value is.
#[derive(Debug, Clone, Copy, PartialEq, Eq, Structural)]
pub enum UIValueType {
    Plugin,
    Header,
    Value,
}

/// Whether `name` is the file name of the game or of one of its official
/// add-ons.
pub open spec fn is_native_file(name: Seq<char>) -> bool {
    name == "Skyrim.esm"@ || name == "Update.esm"@ || name == "Dragonborn.esm"@ || name
        == "HearthFires.esm"@ || name == "Dawnguard.esm"@
}

/// Where the plugin file called `name` comes from: the five files of the game
/// are native, a name that begins with `cc` is from the Creation Club, and
/// everything else is a mod.
pub open spec fn plugin_type_of(name: Seq<char>) -> PluginType {
    if is_native_file(name) {
        PluginType::Native
    } else if "cc"@.is_prefix_of(name) {
        PluginType::CreationClub
    } else {
        PluginType::Mod
    }
}

/// Tells where the plugin file called `name` comes from.
pub fn plugin_type_from_name(name: String) -> (t: PluginType)
    ensures
        t == plugin_type_of(name@),
{
    let file = name.as_str();
    if same_text(file, "Skyrim.esm") || same_text(file, "Update.esm") || same_text(
        file,
        "Dragonborn.esm",
    ) || same_text(file, "HearthFires.esm") || same_text(file, "Dawnguard.esm") {
        PluginType::Native
    } else if starts_with(file, "cc") {
        PluginType::CreationClub
    } else {
        PluginType::Mod
    }
}

/// A value as the detail view lists it.
pub struct SkUIValue {
    name: String,
    value: String,
    pub value_type: UIValueType,
    pub plugin_type: PluginType,
}

impl SkUIValue {
    /// The name under which the value is listed.
    pub closed spec fn name_text(&self) -> Seq<char> {
        self.name@
    }

    /// The value, as text.
    pub closed spec fn value_text(&self) -> Seq<char> {
        self.value@
    }

    /// What the value is.
    pub closed spec fn kind(&self) -> UIValueType {
        self.value_type
    }

    /// Where the file that the value names comes from.
    pub closed spec fn origin(&self) -> PluginType {
        self.plugin_type
    }

    /// Makes a listed value. Its plugin type is that of the file that `value`
    /// names, whatever `value_type` is.
    pub fn new(name: &str, value: String, value_type: UIValueType) -> (r: SkUIValue)
        ensures
            r.name_text() == name@,
            r.value_text() == value@,
            r.kind() == value_type,
            r.origin() == plugin_type_of(value@),
    {
        let plugin_type = plugin_type_from_name(value.clone());
        SkUIValue { name: name.to_owned(), value, value_type, plugin_type }
    }

    /// Gives the value, as text.
    pub fn get_value_string(&self) -> (s: String)
        ensures
            s@ == self.value_text(),
    {
        self.value.clone()
    }

    /// Gives the name under which the value is listed.
    pub fn get_name(&self) -> (s: String)
        ensures
            s@ == self.name_text(),
    {
        self.name.clone()
    }

    /// Tells what the value is.
    pub fn get_value_type(&self) -> (t: UIValueType)
        ensures
            t == self.kind(),
    {
        self.value_type
    }

    /// Tells where the file that the value names comes from.
    pub fn get_plugin_type(&self) -> (t: PluginType)
        ensures
            t == self.origin(),
    {
        self.plugin_type
    }
}

/// Whether `listed` is the entry that lists the plugin file `file`: named
/// after the file, holding its name, and sorted by it.
pub open spec fn lists_plugin(listed: SkUIValue, file: Seq<char>) -> bool {
    &&& listed.name_text() == file
    &&& listed.value_text() == file
    &&& listed.kind() == UIValueType::Plugin
    &&& listed.origin() == plugin_type_of(file)
}

/// Makes the entries that list the given plugin files, one for each file and
/// in the same order.
pub fn convert_plugins_to_skui(plugins: &Vec<String>) -> (listed: Vec<SkUIValue>)
    ensures
        listed@.len() == plugins@.len(),
        forall|i: int| 0 <= i < plugins@.len() ==> lists_plugin(#[trigger] listed@[i], plugins@[i]@),
{
    let mut skui_plugins: Vec<SkUIValue> = Vec::new();
    let mut i: usize = 0;
    while i < plugins.len()
        invariant
            i <= plugins@.len(),
            skui_plugins@.len() == i,
            forall|k: int| 0 <= k < i ==> lists_plugin(#[trigger] skui_plugins@[k], plugins@[k]@),
        decreases plugins@.len() - i,
    {
        let plugin = &plugins[i];
        let new_plugin = SkUIValue::new(plugin.as_str(), plugin.clone(), UIValueType::Plugin);
        skui_plugins.push(new_plugin);
        i = i + 1;
    }
    skui_plugins
}

} // verus!
