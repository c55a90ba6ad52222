//! The objects that libobs hands to a plugin, held as plain values.
//!
//! Each type keeps what the plugin's logic reads or writes of the libobs
//! object of the same name; the host side fills them from libobs and writes
//! them back.

use vstd::prelude::*;

verus! {

/// A settings object: the string values set on a source, and the default
/// registered for each key. A later entry for a key overrides an earlier one.
pub struct obs_data_t {
    pub(crate) values: Vec<(String, String)>,
    pub(crate) defaults: Vec<(String, String)>,
}

/// An output (a stream or a recording): its name, the service it sends to,
/// and whether it is running.
pub struct obs_output_t {
    pub name: String,
    pub service: Option<obs_service_t>,
    pub active: bool,
}

/// A text property of a source, as shown in its settings dialog.
pub struct obs_property_t {
    pub name: String,
    pub description: String,
    pub typ: obs_text_type,
}

/// The properties of a source: the text properties in the order they were
/// added, and the property flags.
pub struct obs_properties_t {
    pub properties: Vec<obs_property_t>,
    pub flags: u32,
}

/// A streaming service: its name, its stream key (if one is set), and its
/// server URL.
pub struct obs_service_t {
    pub name: String,
    pub key: Option<String>,
    pub url: String,
}

/// A source instance; the plugin's logic reads nothing of it.
pub struct obs_source_t {}

/// The kind of a source.
#[derive(Clone, Copy, Debug, PartialEq, Eq, Structural)]
pub enum obs_source_type {
    INPUT,
    FILTER,
    TRANSITION,
    SCENE,
}

/// How a text property is edited.
#[derive(Clone, Copy, Debug, PartialEq, Eq, Structural)]
pub enum obs_text_type {
    DEFAULT,
    PASSWORD,
    MULTILINE,
}

} // verus!
