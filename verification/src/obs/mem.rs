//! Ownership of items that OBS must deallocate.

use vstd::prelude::*;

verus! {

/// Represents an item from OBS that must be deallocated by OBS: the item,
/// and the destructor that gives it back to OBS. The box is consumed either
/// by `destroy`, which runs the destructor on the item, or by `into_raw`,
/// which hands the item out and makes the caller responsible for it.
pub struct OBSBox<T, F: FnMut(T)> {
    item: T,
    destroy_fn: F,
}

impl<T, F: FnMut(T)> OBSBox<T, F> {
    /// The destructor accepts the item.
    #[verifier::type_invariant]
    spec fn destructor_accepts_item(self) -> bool {
        call_requires(self.destroy_fn, (self.item,))
    }

    /// The item held by the box.
    pub closed spec fn item(&self) -> T {
        self.item
    }

    /// The destructor held by the box.
    pub closed spec fn destructor(&self) -> F {
        self.destroy_fn
    }

    /// Creates a new OBS box from an already instantiated item, and a
    /// destructor function, taking ownership of the item.
    pub fn new(item: T, destroy_fn: F) -> (b: Self)
        requires
            call_requires(destroy_fn, (item,)),
        ensures
            b.item() == item,
            b.destructor() == destroy_fn,
    {
        OBSBox { item, destroy_fn }
    }

    /// Gives the item back to OBS: runs the destructor on it, once, and
    /// consumes the box.
    pub fn destroy(self)
        ensures
            call_ensures(self.destructor(), (self.item(),), ()),
    {
        proof {
            use_type_invariant(&self);
        }
        let OBSBox { item, destroy_fn } = self;
        let mut destroy_fn = destroy_fn;
        destroy_fn(item);
    }

    /// Converts this `OBSBox` into the item, consuming the box and making the
    /// caller responsible for deallocation: the destructor is dropped without
    /// being run.
    pub fn into_raw(self) -> (item: T)
        ensures
            item == self.item(),
    {
        let OBSBox { item, destroy_fn } = self;
        item
    }
}

} // verus!
