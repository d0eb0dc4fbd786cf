//! Bounded progress of one traced process.

use vstd::prelude::*;

verus! {

/// Mathematical model of a progress counter: a position below or at a ceiling.
pub struct ProgressView {
    pub current: nat,
    pub ceiling: nat,
}

impl ProgressView {
    /// The counter never lies above its ceiling.
    pub open spec fn wf(self) -> bool {
        self.current <= self.ceiling
    }

    /// The counter has reached its ceiling.
    pub open spec fn is_complete(self) -> bool {
        self.current == self.ceiling
    }

    /// One tick: the counter moves up by one unless that would reach the ceiling,
    /// which is reserved for a confirmed successful exit.
    pub open spec fn advanced(self) -> ProgressView {
        if self.current + 1 < self.ceiling {
            ProgressView { current: self.current + 1, ceiling: self.ceiling }
        } else {
            self
        }
    }

    /// The counter set to its ceiling.
    pub open spec fn completed(self) -> ProgressView {
        ProgressView { current: self.ceiling, ceiling: self.ceiling }
    }
}

/// Progress counter of one traced process: `current` in `0..=ceiling`.
#[derive(Clone, Copy, Debug)]
pub struct ProgressState {
    current: usize,
    ceiling: usize,
}

impl View for ProgressState {
    type V = ProgressView;

    closed spec fn view(&self) -> ProgressView {
        ProgressView { current: self.current as nat, ceiling: self.ceiling as nat }
    }
}

impl ProgressState {
    #[verifier::type_invariant]
    spec fn within_ceiling(self) -> bool {
        self.current <= self.ceiling
    }

    /// A counter at zero below the given ceiling.
    pub fn new(ceiling: usize) -> (p: ProgressState)
        ensures
            p@ == (ProgressView { current: 0, ceiling: ceiling as nat }),
    {
        ProgressState { current: 0, ceiling }
    }

    /// A counter that takes up where an earlier stage left off: at `start`,
    /// or at the ceiling if `start` lies above it.
    pub fn starting_at(start: usize, ceiling: usize) -> (p: ProgressState)
        ensures
            p@ == (ProgressView {
                current: if start <= ceiling {
                    start as nat
                } else {
                    ceiling as nat
                },
                ceiling: ceiling as nat,
            }),
    {
        if start <= ceiling {
            ProgressState { current: start, ceiling }
        } else {
            ProgressState { current: ceiling, ceiling }
        }
    }

    /// The present position.
    pub fn current(&self) -> (c: usize)
        ensures
            c == self@.current,
            self@.wf(),
    {
        proof {
            use_type_invariant(self);
        }
        self.current
    }

    /// The ceiling the counter was made with.
    pub fn ceiling(&self) -> (c: usize)
        ensures
            c == self@.ceiling,
    {
        self.ceiling
    }

    /// Whether the counter stands at its ceiling.
    pub fn is_complete(&self) -> (b: bool)
        ensures
            b == self@.is_complete(),
    {
        self.current == self.ceiling
    }

    /// Moves the counter up by one, stopping one short of the ceiling.
    pub fn advance(&mut self)
        ensures
            final(self)@ == old(self)@.advanced(),
    {
        proof {
            use_type_invariant(&*self);
        }
        if self.current < self.ceiling && self.current + 1 < self.ceiling {
            self.current = self.current + 1;
        }
    }

    /// Sets the counter to its ceiling.
    pub fn complete(&mut self)
        ensures
            final(self)@ == old(self)@.completed(),
    {
        self.current = self.ceiling;
    }

}

/// A tick never lowers the counter, never changes the ceiling, and never
/// reaches the ceiling from below.
pub proof fn lemma_advance_monotone(p: ProgressView)
    requires
        p.wf(),
    ensures
        p.advanced().wf(),
        p.advanced().ceiling == p.ceiling,
        p.current <= p.advanced().current <= p.current + 1,
        p.current < p.ceiling ==> p.advanced().current < p.ceiling,
{
}

} // verus!
