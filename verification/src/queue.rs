//! The destinations of the replies that are still owed, oldest first.

use vstd::prelude::*;

verus! {

/// A first-in, first-out queue of reply destinations. The device answers in
/// the order it was asked, and its answers carry no mark of their own, so
/// the oldest destination always gets the next reply.
///
/// This trusts the device to answer every command that expects an answer,
/// once and in order. A reply to another command than the oldest is handed
/// to the wrong caller, and a destination whose caller has given up stays
/// queued and takes the next reply: the wire offers nothing to tell by.
pub struct CorrelationQueue<T> {
    pending: Vec<T>,
}

impl<T> View for CorrelationQueue<T> {
    type V = Seq<T>;

    closed spec fn view(&self) -> Seq<T> {
        self.pending@
    }
}

impl<T> CorrelationQueue<T> {
    /// A queue with no destination in it.
    pub fn new() -> (q: Self)
        ensures
            q@ == Seq::<T>::empty(),
    {
        CorrelationQueue { pending: Vec::new() }
    }

    /// How many replies are owed.
    pub fn len(&self) -> (n: usize)
        ensures
            n == self@.len(),
    {
        self.pending.len()
    }

    /// Whether no reply is owed.
    pub fn is_empty(&self) -> (b: bool)
        ensures
            b == (self@.len() == 0),
    {
        self.pending.len() == 0
    }

    /// Puts a destination behind all that wait.
    pub fn push(&mut self, destination: T)
        ensures
            final(self)@ == old(self)@.push(destination),
    {
        self.pending.push(destination);
    }

    /// Takes out the destination that has waited longest, if there is one.
    pub fn pop_oldest(&mut self) -> (r: Option<T>)
        ensures
            old(self)@.len() == 0 ==> r is None && final(self)@ == old(self)@,
            old(self)@.len() > 0 ==> r == Some(old(self)@[0]) && final(self)@ == old(self)@.skip(1),
    {
        if self.pending.len() == 0 {
            None
        } else {
            let oldest = self.pending.remove(0);
            assert(self.pending@ =~= old(self).pending@.skip(1));
            Some(oldest)
        }
    }

    /// Takes out every destination, oldest first.
    pub fn take_all(&mut self) -> (all: Vec<T>)
        ensures
            all@ == old(self)@,
            final(self)@ == Seq::<T>::empty(),
    {
        let mut all: Vec<T> = Vec::new();
        core::mem::swap(&mut self.pending, &mut all);
        all
    }

    /// Takes out the destination that was put in last, if there is one.
    pub fn pop_newest(&mut self) -> (r: Option<T>)
        ensures
            old(self)@.len() == 0 ==> r is None && final(self)@ == old(self)@,
            old(self)@.len() > 0 ==> r == Some(old(self)@.last()) && final(self)@ == old(
                self,
            )@.drop_last(),
    {
        self.pending.pop()
    }
}

/// Destinations come out in the order they went in: after a push onto a
/// queue that holds something, the oldest is still the one that was oldest
/// before, and the new one waits behind the rest.
pub proof fn first_in_first_out<T>(waiting: Seq<T>, destination: T)
    ensures
        waiting.len() > 0 ==> waiting.push(destination)[0] == waiting[0],
        waiting.len() > 0 ==> waiting.push(destination).skip(1) == waiting.skip(1).push(
            destination,
        ),
        waiting.len() == 0 ==> waiting.push(destination)[0] == destination,
        waiting.len() == 0 ==> waiting.push(destination).skip(1) == waiting,
{
    if waiting.len() > 0 {
        assert(waiting.push(destination).skip(1) =~= waiting.skip(1).push(destination));
    } else {
        assert(waiting.push(destination).skip(1) =~= waiting);
    }
}

} // verus!
