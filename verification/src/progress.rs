//! Progress accounting for streaming transfers.
//!
//! A transfer knows its total size up front; each chunk advances the
//! position by the chunk's length, capped at the total, so the position
//! never exceeds the total even when the final chunk would overshoot.
//! The surrounding binary renders the position; only one writer updates
//! a given indicator at a time.

use vstd::prelude::*;

verus! {

/// The position of one transfer against its known total size.
pub struct TransferProgress {
    /// The total number of bytes the transfer moves.
    pub total: u64,
    /// The bytes accounted so far; never above `total`.
    pub position: u64,
}

impl TransferProgress {
    /// The indicator's invariant: the position never exceeds the total.
    pub open spec fn wf(self) -> bool {
        self.position <= self.total
    }

    /// Starts an indicator for a transfer of `total` bytes.
    pub fn new(total: u64) -> (p: TransferProgress)
        ensures
            p.wf(),
            p.total == total,
            p.position == 0,
    {
        TransferProgress { total, position: 0 }
    }

    /// Advances the indicator by one chunk's length, capped at the
    /// total size: an overshooting final chunk lands exactly on the
    /// total.
    pub fn advance(&mut self, chunk_len: u64)
        requires
            old(self).wf(),
        ensures
            final(self).wf(),
            final(self).total == old(self).total,
            final(self).position == if old(self).position + chunk_len > old(self).total {
                old(self).total
            } else {
                (old(self).position + chunk_len) as u64
            },
            final(self).position >= old(self).position,
    {
        if chunk_len >= self.total - self.position {
            self.position = self.total;
        } else {
            self.position = self.position + chunk_len;
        }
    }

    /// True exactly when the accounted bytes have reached the total.
    pub fn is_complete(&self) -> (r: bool)
        ensures
            r <==> self.position == self.total,
    {
        self.position == self.total
    }

    /// The indicator's position as a percentage of the total, rounded
    /// down; at most 100.
    pub fn percent(&self) -> (r: u64)
        requires
            self.wf(),
            self.total > 0,
        ensures
            r == (self.position as int) * 100 / (self.total as int),
            r <= 100,
    {
        proof {
            assert((self.position as int) * 100 / (self.total as int) <= 100) by (nonlinear_arith)
                requires
                    self.position <= self.total,
                    self.total > 0,
            ;
        }
        let wide: u128 = (self.position as u128 * 100) / (self.total as u128);
        let r = wide as u64;
        r
    }
}

} // verus!
