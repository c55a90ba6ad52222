//! Building the properties of a source.

use vstd::prelude::*;

use super::sys::{obs_properties_t, obs_property_t, obs_text_type};

verus! {

/// Property flag: apply changed settings only when the dialog is closed.
pub const DEFER_UPDATE: u32 = 1;

/// Creates a new, empty, owned `obs_properties_t` object. The value owns
/// what it holds, so dropping it frees all of it; the host creates and
/// destroys the libobs object that it is copied into.
pub fn create() -> (p: obs_properties_t)
    ensures
        p.properties@.len() == 0,
        p.flags == 0,
{
    obs_properties_t { properties: Vec::new(), flags: 0 }
}

/// Wrapper methods that should be available for `obs_properties_t` objects.
pub trait Properties {
    fn add_text(&mut self, key: &str, value: &str, typ: obs_text_type);

    fn set_flags(&mut self, flags: u32);
}

impl Properties for obs_properties_t {
    /// Adds a text property named `key`, shown with `description`, after the
    /// properties already there.
    fn add_text(&mut self, key: &str, description: &str, typ: obs_text_type)
        ensures
            final(self).properties@.len() == old(self).properties@.len() + 1,
            final(self).properties@.drop_last() == old(self).properties@,
            final(self).properties@.last().name@ == key@,
            final(self).properties@.last().description@ == description@,
            final(self).properties@.last().typ == typ,
            final(self).flags == old(self).flags,
    {
        self.properties.push(
            obs_property_t { name: key.to_owned(), description: description.to_owned(), typ },
        );
        proof {
            assert(self.properties@.drop_last() =~= old(self).properties@);
        }
    }

    /// Replaces the property flags.
    fn set_flags(&mut self, flags: u32)
        ensures
            final(self).flags == flags,
            final(self).properties == old(self).properties,
    {
        self.flags = flags;
    }
}

} // verus!
