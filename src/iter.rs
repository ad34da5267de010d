//! Walking raw tick counts one at a time, forward or backward.
use vstd::prelude::*;
use crate::tick::Tick;

verus! {

/// The raw tick counts from a starting tick upward, one at a time, ending
/// before `i64::MAX`. It can also step backward with `next_back`.
#[derive(Clone, Copy, Debug, PartialEq, Eq, Hash, PartialOrd, Ord)]
pub struct TickIter(i64);

/// The raw tick counts from a starting tick downward, one at a time, ending
/// before `i64::MIN`.
#[derive(Clone, Copy, Debug, PartialEq, Eq, Hash, PartialOrd, Ord)]
pub struct TickRevIter(i64);

impl TickIter {
    /// The count that `next` hands out next.
    pub closed spec fn position(self) -> i64 {
        self.0
    }

    /// The current count, then one step up; `None`, with nothing changed,
    /// once the count has reached `i64::MAX`.
    pub fn next(&mut self) -> (r: Option<i64>)
        ensures
            old(self).position() == i64::MAX ==> r is None && final(self).position() == i64::MAX,
            old(self).position() < i64::MAX ==> r == Some(old(self).position())
                && final(self).position() == old(self).position() + 1,
    {
        if self.0 == i64::MAX {
            None
        } else {
            let value = self.0;
            self.0 = value + 1;
            Some(value)
        }
    }

    /// One step down, then the count reached; `None`, with nothing changed,
    /// once the count has reached `i64::MIN`.
    pub fn next_back(&mut self) -> (r: Option<i64>)
        ensures
            old(self).position() == i64::MIN ==> r is None && final(self).position() == i64::MIN,
            old(self).position() > i64::MIN ==> r == Some((old(self).position() - 1) as i64)
                && final(self).position() == old(self).position() - 1,
    {
        if self.0 == i64::MIN {
            None
        } else {
            self.0 = self.0 - 1;
            Some(self.0)
        }
    }
}

impl TickRevIter {
    /// The count that `next` hands out next.
    pub closed spec fn position(self) -> i64 {
        self.0
    }

    /// The current count, then one step down; `None`, with nothing changed,
    /// once the count has reached `i64::MIN`.
    pub fn next(&mut self) -> (r: Option<i64>)
        ensures
            old(self).position() == i64::MIN ==> r is None && final(self).position() == i64::MIN,
            old(self).position() > i64::MIN ==> r == Some(old(self).position())
                && final(self).position() == old(self).position() - 1,
    {
        if self.0 == i64::MIN {
            None
        } else {
            let value = self.0;
            self.0 = value - 1;
            Some(value)
        }
    }
}

impl Tick {
    /// The raw tick counts from this one upward.
    pub fn into_iter(self) -> (r: TickIter)
        ensures
            r.position() == self.0,
    {
        TickIter(self.0)
    }

    /// The raw tick counts from this one downward.
    pub fn into_rev_iter(self) -> (r: TickRevIter)
        ensures
            r.position() == self.0,
    {
        TickRevIter(self.0)
    }
}

} // verus!
