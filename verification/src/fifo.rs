//! A bounded first-in first-out queue.
use std::collections::VecDeque;
use vstd::prelude::*;

verus! {

/// The error a push into a full queue answers.
pub const FIFO_FULL: &'static str = "fifo is full";

/// A queue that holds at most `N` items; the oldest item leaves first.
pub struct Fifo<T, const N: usize> {
    queue: VecDeque<T>,
}

impl<T, const N: usize> Fifo<T, N> {
    /// The items, oldest first.
    pub closed spec fn view(&self) -> Seq<T> {
        self.queue@
    }

    /// The queue never holds more than `N` items.
    #[verifier::type_invariant]
    spec fn bounded(&self) -> bool {
        self.queue@.len() <= N
    }

    pub fn new() -> (r: Self)
        ensures
            r@ == Seq::<T>::empty(),
    {
        Fifo { queue: VecDeque::with_capacity(N) }
    }

    /// Appends `item` unless the queue already holds `N` items.
    pub fn push(&mut self, item: T) -> (r: Result<(), &'static str>)
        ensures
            r.is_ok() == (old(self)@.len() < N),
            r.is_ok() ==> final(self)@ == old(self)@.push(item),
            r.is_err() ==> final(self)@ == old(self)@ && r == Err::<(), &'static str>(FIFO_FULL),
            final(self)@.len() <= N,
    {
        proof {
            use_type_invariant(&*self);
        }
        if self.queue.len() < N {
            let mut q = VecDeque::new();
            std::mem::swap(&mut q, &mut self.queue);
            q.push_back(item);
            std::mem::swap(&mut q, &mut self.queue);
            Ok(())
        } else {
            Err(FIFO_FULL)
        }
    }

    /// The oldest item, if any.
    pub fn peek(&mut self) -> (r: Option<&T>)
        ensures
            final(self)@ == old(self)@,
            old(self)@.len() == 0 ==> r.is_none(),
            old(self)@.len() > 0 ==> r == Some(&old(self)@[0]),
    {
        if self.queue.len() > 0 {
            Some(&self.queue[0])
        } else {
            None
        }
    }

    /// Removes and returns the oldest item, if any.
    pub fn pop(&mut self) -> (r: Option<T>)
        ensures
            old(self)@.len() == 0 ==> r.is_none() && final(self)@ == old(self)@,
            old(self)@.len() > 0 ==> r == Some(old(self)@[0]) && final(self)@ == old(self)@.drop_first(),
            final(self)@.len() <= N,
    {
        proof {
            use_type_invariant(&*self);
        }
        let mut q = VecDeque::new();
        std::mem::swap(&mut q, &mut self.queue);
        let r = q.pop_front();
        std::mem::swap(&mut q, &mut self.queue);
        r
    }

    pub fn is_empty(&self) -> (r: bool)
        ensures
            r == (self@.len() == 0),
    {
        self.queue.len() == 0
    }

    pub fn is_full(&self) -> (r: bool)
        ensures
            r == (self@.len() == N),
    {
        self.queue.len() == N
    }

    pub fn len(&self) -> (r: usize)
        ensures
            r == self@.len(),
            r <= N,
    {
        proof {
            use_type_invariant(self);
        }
        self.queue.len()
    }

    pub fn clear(&mut self)
        ensures
            final(self)@ == Seq::<T>::empty(),
    {
        let mut q = VecDeque::new();
        std::mem::swap(&mut q, &mut self.queue);
        q.clear();
        std::mem::swap(&mut q, &mut self.queue);
    }
}

/// Items leave in the order they came: after pushing `item` onto a queue
/// holding `items`, a pop gives the oldest of `items`, or `item` itself when
/// the queue was empty, and what stays is in the same order with `item`
/// last.
pub proof fn law_first_in_first_out<T>(items: Seq<T>, item: T)
    ensures
        items.len() == 0 ==> items.push(item)[0] == item && items.push(item).drop_first() == items,
        items.len() > 0 ==> items.push(item)[0] == items[0] && items.push(item).drop_first()
            == items.drop_first().push(item),
{
    assert(items.len() == 0 ==> items.push(item).drop_first() =~= items);
    assert(items.len() > 0 ==> items.push(item).drop_first() =~= items.drop_first().push(item));
}

} // verus!
