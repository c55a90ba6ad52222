//! Reading an output.

use vstd::prelude::*;

use super::sys::{obs_output_t, obs_service_t};

verus! {

/// Wrapper methods that should be available for `obs_output_t` objects.
pub trait Output {
    fn get_name(&self) -> &str;

    fn get_service(&self) -> Option<&obs_service_t>;

    fn active(&self) -> bool;
}

impl Output for obs_output_t {
    /// The name of the output.
    fn get_name(&self) -> (n: &str)
        ensures
            n@ == self.name@,
    {
        self.name.as_str()
    }

    /// The service the output sends to, if it has one.
    fn get_service(&self) -> (s: Option<&obs_service_t>)
        ensures
            match s {
                Some(s) => self.service == Some(*s),
                None => self.service is None,
            },
    {
        self.service.as_ref()
    }

    /// Whether the output is running.
    fn active(&self) -> (a: bool)
        ensures
            a == self.active,
    {
        self.active
    }
}

} // verus!
