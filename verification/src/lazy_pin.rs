use vstd::prelude::*;

verus! {

/// A boxed value that can be handed out for pinned use; once that happens it
/// may no longer be taken back out by value.
pub struct LazyPin<T> {
    value: Box<T>,
    pinned: bool,
}

impl<T> LazyPin<T> {
    /// The held value.
    pub closed spec fn spec_value(&self) -> T {
        *self.value
    }

    /// Whether the value was ever handed out for pinned use.
    pub closed spec fn spec_pinned(&self) -> bool {
        self.pinned
    }

    /// Boxes a value, not yet pinned.
    pub fn new(value: T) -> (r: LazyPin<T>)
        ensures
            r.spec_value() == value,
            !r.spec_pinned(),
    {
        LazyPin { value: Box::new(value), pinned: false }
    }

    /// Takes the value back out, unless it was handed out for pinned use.
    pub fn into_unpinned(self) -> (r: Option<T>)
        ensures
            if self.spec_pinned() {
                r is None
            } else {
                r matches Some(v) && v == self.spec_value()
            },
    {
        if self.pinned {
            None
        } else {
            Some(*self.value)
        }
    }
}

} // verus!
