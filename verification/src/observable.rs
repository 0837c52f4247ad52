//! A minimal reactive cell: holds a value, hands it out on demand, and
//! notifies every subscriber, in subscription order, on every write.

use vstd::prelude::*;

verus! {

/// A subscriber to an [`ObservableValue`]: its `on_change` method is invoked
/// with the new value after every `set`, including redundant ones.
pub trait ChangeHandler<T> {
    fn on_change(&self, value: T);
}

/// A value cell that notifies its subscribers synchronously on every write.
///
/// Subscribers are invoked in subscription order; a subscriber added after
/// some writes is never retroactively notified of them.
#[verifier::reject_recursive_types(T)]
pub struct ObservableValue<T> {
    value: T,
    change_handlers: Vec<Box<dyn ChangeHandler<T>>>,
}

impl<T: Copy> ObservableValue<T> {
    /// The value most recently stored in the cell.
    pub closed spec fn value(&self) -> T {
        self.value
    }

    /// The subscribers, in subscription order.
    pub closed spec fn handlers(&self) -> Seq<Box<dyn ChangeHandler<T>>> {
        self.change_handlers@
    }

    /// Creates a cell holding `value`, with no subscribers yet.
    pub fn new(value: T) -> (cell: Self)
        ensures
            cell.value() == value,
            cell.handlers() == Seq::<Box<dyn ChangeHandler<T>>>::empty(),
    {
        Self { value, change_handlers: Vec::new() }
    }

    /// Returns the value most recently stored.
    pub fn get(&self) -> (v: T)
        ensures
            v == self.value(),
    {
        self.value
    }

    /// Stores `value`, then invokes every subscriber with it, in
    /// subscription order. There is no change detection: storing the value
    /// the cell already holds notifies the subscribers all the same.
    pub fn set(&mut self, value: T)
        ensures
            final(self).value() == value,
            final(self).handlers() == old(self).handlers(),
    {
        self.value = value;
        let mut i: usize = 0;
        while i < self.change_handlers.len()
            invariant
                self.value == value,
                self.change_handlers@ == old(self).change_handlers@,
            decreases self.change_handlers.len() - i,
        {
            self.change_handlers[i].on_change(value);
            i += 1;
        }
    }

    /// Appends `handler` to the subscriber list; it will be invoked on every
    /// later `set`, after the subscribers already present.
    pub fn subscribe(&mut self, handler: Box<dyn ChangeHandler<T>>)
        ensures
            final(self).value() == old(self).value(),
            final(self).handlers() == old(self).handlers().push(handler),
    {
        self.change_handlers.push(handler);
    }
}

} // verus!
