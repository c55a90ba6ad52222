//! The plugin's view of libobs: its objects, and the operations on them that
//! the plugin's logic uses.

use vstd::prelude::*;

pub mod data;
pub mod mem;
pub mod output;
pub mod properties;
pub mod service;
pub mod source;
pub mod sys;

pub use data::Data;
pub use output::Output;
pub use properties::Properties;
pub use service::Service;

use sys::{obs_output_t, obs_source_t};

verus! {

/// Where an enumeration that calls `f` on each of `items` in turn, and stops
/// at the first call that returns `false`, stopped: `Some(j)` if the call on
/// `items[j]` returned `false` (and every earlier call returned `true`),
/// `None` if every call returned `true`.
pub open spec fn enumeration_stopped_at<T, F: Fn(&T) -> bool>(
    items: Seq<T>,
    f: F,
    stopped_at: Option<usize>,
) -> bool {
    match stopped_at {
        Some(j) => {
            &&& j < items.len()
            &&& call_ensures(f, (&items[j as int],), false)
            &&& forall|i: int| 0 <= i < j ==> call_ensures(f, (&items[i],), true)
        },
        None => forall|i: int| 0 <= i < items.len() ==> call_ensures(f, (&items[i],), true),
    }
}

/// Calls `f` on each item in turn until a call returns `false`.
fn enum_internal<T, F: Fn(&T) -> bool>(items: &Vec<T>, f: F) -> (stopped_at: Option<usize>)
    requires
        forall|i: int| 0 <= i < items.len() ==> call_requires(f, (&items[i],)),
    ensures
        enumeration_stopped_at(items@, f, stopped_at),
{
    let n = items.len();
    let mut i: usize = 0;
    while i < n
        invariant
            n == items.len(),
            i <= n,
            forall|k: int| 0 <= k < items.len() ==> call_requires(f, (&items[k],)),
            forall|k: int| 0 <= k < i ==> call_ensures(f, (&items[k],), true),
        decreases n - i,
    {
        let go_on = f(&items[i]);
        if !go_on {
            return Some(i);
        }
        i = i + 1;
    }
    None
}

/// Convenience function for enumerating the outputs of OBS: calls `f` on
/// each output in turn until a call returns `false`, and says where that
/// happened.
pub fn enum_outputs<F: Fn(&obs_output_t) -> bool>(
    outputs: &Vec<obs_output_t>,
    f: F,
) -> (stopped_at: Option<usize>)
    requires
        forall|i: int| 0 <= i < outputs.len() ==> call_requires(f, (&outputs[i],)),
    ensures
        enumeration_stopped_at(outputs@, f, stopped_at),
{
    enum_internal(outputs, f)
}

/// Convenience function for enumerating the sources of OBS: calls `f` on
/// each source in turn until a call returns `false`, and says where that
/// happened.
pub fn enum_sources<F: Fn(&obs_source_t) -> bool>(
    sources: &Vec<obs_source_t>,
    f: F,
) -> (stopped_at: Option<usize>)
    requires
        forall|i: int| 0 <= i < sources.len() ==> call_requires(f, (&sources[i],)),
    ensures
        enumeration_stopped_at(sources@, f, stopped_at),
{
    enum_internal(sources, f)
}

} // verus!
