//! A bounded first-in, first-out queue that never waits: an item offered to a full queue is
//! turned away and the queue stays as it was.

use std::collections::VecDeque;
use vstd::prelude::*;

verus! {

/// What a queue with room for `capacity` items holds after `item` is offered to it: the item
/// goes to the back if there is room, and is dropped otherwise.
pub open spec fn offered<T>(items: Seq<T>, capacity: nat, item: T) -> Seq<T> {
    if items.len() < capacity {
        items.push(item)
    } else {
        items
    }
}

/// What is left of a queue after its oldest item, if it has one, is taken out.
pub open spec fn after_take<T>(items: Seq<T>) -> Seq<T> {
    if items.len() > 0 {
        items.drop_first()
    } else {
        items
    }
}

/// The oldest item of a queue, if it has one.
pub open spec fn oldest<T>(items: Seq<T>) -> Option<T> {
    if items.len() > 0 {
        Some(items.first())
    } else {
        None
    }
}

/// A queue of at most `capacity` items, oldest first.
pub struct BoundedQueue<T> {
    items: VecDeque<T>,
    capacity: usize,
}

impl<T> View for BoundedQueue<T> {
    type V = Seq<T>;

    /// The items of the queue, oldest first. The view is cut off at the capacity, so that it
    /// is within capacity for every value of the type; a queue that exists never holds more.
    closed spec fn view(&self) -> Seq<T> {
        if self.items@.len() <= self.capacity {
            self.items@
        } else {
            self.items@.take(self.capacity as int)
        }
    }
}

impl<T> BoundedQueue<T> {
    #[verifier::type_invariant]
    spec fn within_capacity(self) -> bool {
        self.items@.len() <= self.capacity
    }

    /// The largest number of items the queue holds.
    pub closed spec fn spec_capacity(&self) -> nat {
        self.capacity as nat
    }

    /// A queue never holds more than its capacity.
    pub proof fn lemma_within_capacity(&self)
        ensures
            self@.len() <= self.spec_capacity(),
    {
    }

    /// An empty queue with room for `capacity` items.
    pub fn new(capacity: usize) -> (queue: Self)
        ensures
            queue@ == Seq::<T>::empty(),
            queue.spec_capacity() == capacity,
    {
        BoundedQueue { items: VecDeque::new(), capacity }
    }

    pub fn capacity(&self) -> (capacity: usize)
        ensures
            capacity == self.spec_capacity(),
    {
        self.capacity
    }

    pub fn len(&self) -> (len: usize)
        ensures
            len == self@.len(),
    {
        proof {
            use_type_invariant(self);
        }
        self.items.len()
    }

    pub fn is_full(&self) -> (full: bool)
        ensures
            full == (self@.len() == self.spec_capacity()),
    {
        proof {
            use_type_invariant(self);
        }
        self.items.len() >= self.capacity
    }

    /// Offers `item` to the queue without waiting. Returns whether it was taken; a full queue
    /// keeps what it holds and the new item is lost.
    pub fn push(&mut self, item: T) -> (accepted: bool)
        ensures
            accepted == (old(self)@.len() < old(self).spec_capacity()),
            final(self)@ == offered(old(self)@, old(self).spec_capacity(), item),
            final(self).spec_capacity() == old(self).spec_capacity(),
    {
        proof {
            use_type_invariant(&*self);
        }
        if self.items.len() < self.capacity {
            let mut items: VecDeque<T> = VecDeque::new();
            std::mem::swap(&mut items, &mut self.items);
            items.push_back(item);
            self.items = items;
            true
        } else {
            false
        }
    }

    /// Takes the oldest item out of the queue.
    pub fn pop(&mut self) -> (item: Option<T>)
        ensures
            item == oldest(old(self)@),
            final(self)@ == after_take(old(self)@),
            final(self).spec_capacity() == old(self).spec_capacity(),
    {
        proof {
            use_type_invariant(&*self);
        }
        let mut items: VecDeque<T> = VecDeque::new();
        std::mem::swap(&mut items, &mut self.items);
        let item = items.pop_front();
        self.items = items;
        item
    }
}

} // verus!
