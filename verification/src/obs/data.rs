//! Reading and writing the string settings of a source.

use vstd::prelude::*;

use super::sys::obs_data_t;

verus! {

/// The value bound to `key` in a list of bindings where a later binding of a
/// key overrides an earlier one.
pub open spec fn lookup(entries: Seq<(String, String)>, key: Seq<char>) -> Option<Seq<char>>
    decreases entries.len(),
{
    if entries.len() == 0 {
        None
    } else if entries.last().0@ == key {
        Some(entries.last().1@)
    } else {
        lookup(entries.drop_last(), key)
    }
}

/// Finds the latest binding of `key`.
fn find_binding(entries: &Vec<(String, String)>, key: &String) -> (r: Option<String>)
    ensures
        match r {
            Some(v) => lookup(entries@, key@) == Some(v@),
            None => lookup(entries@, key@) is None,
        },
{
    let mut i = entries.len();
    assert(entries@.take(i as int) =~= entries@);
    while i > 0
        invariant
            i <= entries.len(),
            lookup(entries@, key@) == lookup(entries@.take(i as int), key@),
        decreases i,
    {
        let ghost prefix = entries@.take(i as int);
        i = i - 1;
        assert(prefix.drop_last() =~= entries@.take(i as int));
        assert(prefix.last() == entries@[i as int]);
        if entries[i].0 == *key {
            return Some(entries[i].1.clone());
        }
    }
    None
}

impl obs_data_t {
    /// The value set for `key`, if any.
    pub closed spec fn value_of(&self, key: Seq<char>) -> Option<Seq<char>> {
        lookup(self.values@, key)
    }

    /// The default registered for `key`, if any.
    pub closed spec fn default_of(&self, key: Seq<char>) -> Option<Seq<char>> {
        lookup(self.defaults@, key)
    }

    /// What reading `key` gives: the value set for it, else its default,
    /// else the empty string.
    pub open spec fn string_of(&self, key: Seq<char>) -> Seq<char> {
        match self.value_of(key) {
            Some(v) => v,
            None => match self.default_of(key) {
                Some(d) => d,
                None => Seq::empty(),
            },
        }
    }

    /// A settings object with no values and no defaults.
    pub fn new() -> (d: obs_data_t)
        ensures
            forall|k: Seq<char>| d.value_of(k) is None,
            forall|k: Seq<char>| d.default_of(k) is None,
    {
        obs_data_t { values: Vec::new(), defaults: Vec::new() }
    }

    /// Sets the value of `key`.
    pub fn set_string(&mut self, key: &str, value: &str)
        ensures
            final(self).value_of(key@) == Some(value@),
            forall|k: Seq<char>| k != key@ ==> final(self).value_of(k) == old(self).value_of(k),
            forall|k: Seq<char>| final(self).default_of(k) == old(self).default_of(k),
    {
        self.values.push((key.to_owned(), value.to_owned()));
        proof {
            assert(self.values@.drop_last() =~= old(self).values@);
        }
    }
}

/// Wrapper methods that should be available for `obs_data_t` objects.
pub trait Data {
    fn set_default_string(&mut self, key: &str, value: &str);

    fn get_string(&self, key: &str) -> String;
}

impl Data for obs_data_t {
    /// Registers `value` as the default of `key`.
    fn set_default_string(&mut self, key: &str, value: &str)
        ensures
            final(self).default_of(key@) == Some(value@),
            forall|k: Seq<char>| k != key@ ==> final(self).default_of(k) == old(self).default_of(k),
            forall|k: Seq<char>| final(self).value_of(k) == old(self).value_of(k),
    {
        self.defaults.push((key.to_owned(), value.to_owned()));
        proof {
            assert(self.defaults@.drop_last() =~= old(self).defaults@);
        }
    }

    /// Reads `key`: its value, else its default, else the empty string.
    fn get_string(&self, key: &str) -> (s: String)
        ensures
            s@ == self.string_of(key@),
    {
        let key = key.to_owned();
        match find_binding(&self.values, &key) {
            Some(v) => v,
            None => match find_binding(&self.defaults, &key) {
                Some(d) => d,
                None => String::new(),
            },
        }
    }
}

/// A value set on a key is what reading the key gives, whatever defaults are
/// registered before or after: reading after setting `value` on `key` (and
/// then registering any number of defaults) gives `value`.
pub proof fn law_value_outranks_default(
    set: obs_data_t,
    later: obs_data_t,
    key: Seq<char>,
    value: Seq<char>,
)
    requires
        set.value_of(key) == Some(value),
        forall|k: Seq<char>| later.value_of(k) == set.value_of(k),
    ensures
        later.string_of(key) == value,
{
}

/// On a key with no value set, reading gives the default registered last
/// for it, and the empty string where none was.
pub proof fn law_default_read_back(
    before: obs_data_t,
    after: obs_data_t,
    key: Seq<char>,
    default: Seq<char>,
)
    requires
        before.value_of(key) is None,
        after.default_of(key) == Some(default),
        forall|k: Seq<char>| after.value_of(k) == before.value_of(k),
    ensures
        after.string_of(key) == default,
        before.default_of(key) is None ==> before.string_of(key) == Seq::<char>::empty(),
{
}

} // verus!
