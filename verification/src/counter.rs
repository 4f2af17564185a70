//! The occupancy counter: admission control for the bounded channel.
//!
//! The counter is one machine word. It is changed only by adding one and by
//! taking one away, and both wrap at the ends of the word, as a hardware
//! fetch-and-add does.

use vstd::prelude::*;

verus! {

/// What the counter says to a producer that asked for a place.
#[derive(Clone, Copy, Debug, PartialEq, Eq, Structural)]
pub enum Admission {
    /// The count before the increment was below the capacity.
    Admitted,
    /// The count before the increment had reached the capacity.
    Full,
}

/// The word after one is added to `v`, wrapping at the top.
pub open spec fn word_after_add(v: usize) -> usize {
    if v == usize::MAX {
        0
    } else {
        (v + 1) as usize
    }
}

/// The word after one is taken from `v`, wrapping at zero.
pub open spec fn word_after_sub(v: usize) -> usize {
    if v == 0 {
        usize::MAX
    } else {
        (v - 1) as usize
    }
}

/// The verdict on an increment that found `previous` in the counter.
pub open spec fn admission(previous: usize, capacity: usize) -> Admission {
    if previous >= capacity {
        Admission::Full
    } else {
        Admission::Admitted
    }
}

/// Judges an increment by the value that it found. A process that keeps the
/// word in memory of its own calls this with what its fetch-and-add returned.
pub fn judge(previous: usize, capacity: usize) -> (verdict: Admission)
    ensures
        verdict == admission(previous, capacity),
{
    if previous >= capacity {
        Admission::Full
    } else {
        Admission::Admitted
    }
}

/// The number of messages that were admitted and not yet taken out.
pub struct OccupancyCounter {
    value: usize,
}

impl View for OccupancyCounter {
    type V = usize;

    closed spec fn view(&self) -> usize {
        self.value
    }
}

impl OccupancyCounter {
    /// A counter at zero.
    pub fn new() -> (counter: OccupancyCounter)
        ensures
            counter@ == 0,
    {
        OccupancyCounter { value: 0 }
    }

    /// The current count.
    pub fn value(&self) -> (v: usize)
        ensures
            v == self@,
    {
        self.value
    }

    /// Adds one and judges the value found before the addition. The addition
    /// stays in the counter whatever the answer: a caller that is refused
    /// gives the place back with `decrement`.
    pub fn increment_and_check(&mut self, capacity: usize) -> (verdict: Admission)
        ensures
            verdict == admission(old(self)@, capacity),
            final(self)@ == word_after_add(old(self)@),
    {
        let previous = self.value;
        self.value = previous.wrapping_add(1);
        judge(previous, capacity)
    }

    /// Takes one away.
    pub fn decrement(&mut self)
        ensures
            final(self)@ == word_after_sub(old(self)@),
    {
        self.value = self.value.wrapping_sub(1);
    }
}

/// Taking one away undoes adding one, at every value of the word.
pub proof fn lemma_decrement_undoes_increment(v: usize)
    ensures
        word_after_sub(word_after_add(v)) == v,
        word_after_add(word_after_sub(v)) == v,
{
}

} // verus!
