//! Reading a streaming service.

use vstd::prelude::*;

use super::sys::obs_service_t;

verus! {

/// Wrapper methods that should be available for `obs_service_t` objects.
pub trait Service {
    fn get_name(&self) -> &str;

    fn get_key(&self) -> Option<&str>;

    fn get_url(&self) -> &str;
}

impl Service for obs_service_t {
    /// The name of the service.
    fn get_name(&self) -> (n: &str)
        ensures
            n@ == self.name@,
    {
        self.name.as_str()
    }

    /// The stream key of the service; `None` where no key is set.
    fn get_key(&self) -> (k: Option<&str>)
        ensures
            match k {
                Some(k) => self.key matches Some(key) && k@ == key@,
                None => self.key is None,
            },
    {
        match &self.key {
            Some(key) => Some(key.as_str()),
            None => None,
        }
    }

    /// The server URL of the service.
    fn get_url(&self) -> (u: &str)
        ensures
            u@ == self.url@,
    {
        self.url.as_str()
    }
}

} // verus!
