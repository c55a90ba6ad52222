//! What a source type offers to OBS.

use vstd::prelude::*;

use super::sys::{obs_data_t, obs_source_t, obs_source_type};

verus! {

/// Represents the minimal implementation of a an OBS source.
pub trait Source: Sized {
    fn id() -> &'static str;

    fn typ() -> obs_source_type;

    fn output_flags() -> u32;

    fn create(settings: &mut obs_data_t, source: &mut obs_source_t) -> Self;

    fn get_name(&self) -> &str;

    fn get_width(&mut self) -> u32;

    fn get_height(&mut self) -> u32;
}

} // verus!
