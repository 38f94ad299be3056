//! A value that is set once.

use vstd::prelude::*;

verus! {

/// A place for a value.  The first value that is put there stays until it is
/// taken out.
#[derive(Debug)]
pub struct SetOnce<T> {
    value: Option<T>,
}

impl<T> View for SetOnce<T> {
    type V = Option<T>;

    closed spec fn view(&self) -> Option<T> {
        self.value
    }
}

/// What is in a place that held `current` once `offered` was offered to it.
pub open spec fn first_of<T>(current: Option<T>, offered: T) -> Option<T> {
    match current {
        Some(first) => Some(first),
        None => Some(offered),
    }
}

impl<T> SetOnce<T> {
    /// A place with nothing in it.
    pub fn new() -> (cell: SetOnce<T>)
        ensures
            cell@ == None::<T>,
    {
        SetOnce { value: None }
    }

    /// The value, if there is one.
    pub fn get(&self) -> (value: Option<&T>)
        ensures
            value == (match self@ {
                Some(v) => Some(&v),
                None => None,
            }),
    {
        self.value.as_ref()
    }

    /// Exclusive access to the value, if there is one.
    pub fn get_mut(&mut self) -> (value: Option<&mut T>)
        ensures
            match value {
                Some(v) => old(self)@ == Some(*v) && final(self)@ == Some(*final(v)),
                None => old(self)@ is None && final(self)@ is None,
            },
    {
        self.value.as_mut()
    }

    /// Puts `offered` in the place, unless there is a value already.
    pub fn get_or_init(&mut self, offered: T)
        ensures
            final(self)@ == first_of(old(self)@, offered),
    {
        if self.value.is_none() {
            self.value = Some(offered);
        }
    }

    /// Takes the value out.
    pub fn take(&mut self) -> (value: Option<T>)
        ensures
            value == old(self)@,
            final(self)@ == None::<T>,
    {
        self.value.take()
    }
}

} // verus!
