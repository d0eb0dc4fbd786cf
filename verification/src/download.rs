//! Progress of a download whose length is known in advance.

use vstd::prelude::*;

verus! {

/// The share of `total` that `current` is, in whole percent, rounded down.
/// A download of unknown or zero length stays at zero.
pub open spec fn percent(current: nat, total: nat) -> nat {
    if total == 0 {
        0
    } else {
        current * 100 / total
    }
}

/// Mathematical model of a download.
pub struct DownloadView {
    pub total: nat,
    pub current: nat,
    pub shown: nat,
}

/// Counts the bytes of a download and says when the percentage to show changes.
#[derive(Clone, Copy, Debug)]
pub struct DownloadProgress {
    total: u64,
    current: u64,
    shown: usize,
}

impl View for DownloadProgress {
    type V = DownloadView;

    closed spec fn view(&self) -> DownloadView {
        DownloadView {
            total: self.total as nat,
            current: self.current as nat,
            shown: self.shown as nat,
        }
    }
}

/// The byte count after a chunk arrived. It stops at the largest number
/// the counter holds.
pub open spec fn received(current: nat, chunk_len: nat) -> nat {
    if current + chunk_len <= u64::MAX {
        current + chunk_len
    } else {
        u64::MAX as nat
    }
}

/// The percentage as the sink takes it. It stops at the largest number
/// the sink's type holds.
pub open spec fn shown_percent(current: nat, total: nat) -> nat {
    if percent(current, total) <= usize::MAX {
        percent(current, total)
    } else {
        usize::MAX as nat
    }
}

impl DownloadProgress {
    #[verifier::type_invariant]
    spec fn shows_its_share(self) -> bool {
        self.shown == shown_percent(self.current as nat, self.total as nat)
    }

    /// A download of `total` bytes of which none has arrived, showing zero.
    pub fn new(total: u64) -> (d: DownloadProgress)
        ensures
            d@ == (DownloadView { total: total as nat, current: 0, shown: 0 }),
    {
        DownloadProgress { total, current: 0, shown: 0 }
    }

    /// The percentage shown last: the share of the bytes that have arrived.
    pub fn shown(&self) -> (p: usize)
        ensures
            p == self@.shown,
            p == shown_percent(self@.current, self@.total),
    {
        proof {
            use_type_invariant(self);
        }
        self.shown
    }

    /// Takes in a chunk of `chunk_len` bytes. Returns the new percentage
    /// when it differs from the one shown last, and nothing when it does
    /// not. The percentage never goes down.
    pub fn advance(&mut self, chunk_len: usize) -> (change: Option<usize>)
        ensures
            final(self)@.total == old(self)@.total,
            final(self)@.current == received(old(self)@.current, chunk_len as nat),
            final(self)@.shown == shown_percent(final(self)@.current, old(self)@.total),
            old(self)@.shown == shown_percent(old(self)@.current, old(self)@.total),
            old(self)@.shown <= final(self)@.shown,
            match change {
                Some(p) => p == final(self)@.shown && final(self)@.shown != old(self)@.shown,
                None => final(self)@.shown == old(self)@.shown,
            },
    {
        proof {
            use_type_invariant(&*self);
            lemma_percent_monotone(
                self.current as nat,
                received(self.current as nat, chunk_len as nat),
                self.total as nat,
            );
        }
        let sum: u128 = self.current as u128 + chunk_len as u128;
        let current: u64 = if sum <= u64::MAX as u128 {
            sum as u64
        } else {
            u64::MAX
        };
        let now: usize = if self.total == 0 {
            0
        } else {
            let scaled: u128 = current as u128 * 100;
            let share: u128 = scaled / (self.total as u128);
            if share <= usize::MAX as u128 {
                share as usize
            } else {
                usize::MAX
            }
        };
        let changed = now != self.shown;
        *self = DownloadProgress { total: self.total, current, shown: now };
        if changed {
            Some(now)
        } else {
            None
        }
    }
}

/// The percentage never goes down as bytes arrive, and a download that has
/// all its bytes shows one hundred.
pub proof fn lemma_percent_monotone(before: nat, after: nat, total: nat)
    requires
        before <= after,
    ensures
        percent(before, total) <= percent(after, total),
        total > 0 ==> percent(total, total) == 100,
        total > 0 && after < total ==> percent(after, total) < 100,
{
    if total > 0 {
        assert(before * 100 <= after * 100) by (nonlinear_arith)
            requires
                before <= after,
        ;
        vstd::arithmetic::div_mod::lemma_div_is_ordered(
            (before * 100) as int,
            (after * 100) as int,
            total as int,
        );
        assert(total * 100 / total == 100) by (nonlinear_arith)
            requires
                total > 0,
        ;
        if after < total {
            assert(after * 100 / total < 100) by (nonlinear_arith)
                requires
                    total > 0,
                    after < total,
            ;
        }
    }
}

} // verus!
