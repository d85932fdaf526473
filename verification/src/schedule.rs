//! The deadline scheduler: how long to wait before the consumption is attempted.
//!
//! The wait is a convenience. Whether the deadline has passed is decided by the condition script
//! when the consumption is submitted, not by the clock.

use vstd::prelude::*;

verus! {

/// The expected block cadence and the margin added on top.
#[derive(Clone, Copy, Debug, PartialEq, Eq, Structural)]
pub struct WaitPolicy {
    /// The expected time between two blocks, in seconds.
    pub block_interval_secs: u32,
    /// The time added to the estimate, in seconds.
    pub margin_secs: u32,
}

/// The number of blocks still to come before the chain reaches `deadline`.
pub open spec fn blocks_remaining_spec(observed_height: u32, deadline: u64) -> int {
    if deadline > observed_height {
        deadline - observed_height
    } else {
        0
    }
}

pub fn blocks_remaining(observed_height: u32, deadline: u64) -> (blocks: u64)
    ensures
        blocks == blocks_remaining_spec(observed_height, deadline),
{
    if deadline > observed_height as u64 {
        deadline - observed_height as u64
    } else {
        0
    }
}

impl WaitPolicy {
    /// The blocks remaining times the block interval, plus the margin.
    pub open spec fn wait_spec(&self, observed_height: u32, deadline: u64) -> int {
        blocks_remaining_spec(observed_height, deadline) * self.block_interval_secs
            + self.margin_secs
    }

    /// The seconds to wait before consuming a note with this deadline, when the chain was seen
    /// at `observed_height`. There is no wait to give for a deadline beyond the last height that
    /// the chain can reach: such a note stays locked.
    pub fn wait_secs(&self, observed_height: u32, deadline: u64) -> (r: Option<u64>)
        ensures
            deadline <= u32::MAX ==> r == Some(self.wait_spec(observed_height, deadline) as u64),
            deadline <= u32::MAX ==> self.wait_spec(observed_height, deadline) <= u64::MAX,
            deadline > u32::MAX ==> r is None,
    {
        if deadline > u32::MAX as u64 {
            return None;
        }
        let blocks = blocks_remaining(observed_height, deadline);
        let interval = self.block_interval_secs as u64;
        assert(blocks * interval <= 0xffff_ffff * 0xffff_ffff) by (nonlinear_arith)
            requires
                blocks <= 0xffff_ffff,
                interval <= 0xffff_ffff,
        ;
        Some(blocks * interval + self.margin_secs as u64)
    }

    /// The wait is never shorter than the margin, and it is the margin alone once the chain has
    /// reached the deadline.
    pub proof fn lemma_wait_covers_margin(policy: WaitPolicy, observed_height: u32, deadline: u64)
        ensures
            policy.wait_spec(observed_height, deadline) >= policy.margin_secs,
            deadline <= observed_height ==> policy.wait_spec(observed_height, deadline)
                == policy.margin_secs,
    {
        assert(blocks_remaining_spec(observed_height, deadline) * policy.block_interval_secs >= 0)
            by (nonlinear_arith)
            requires
                blocks_remaining_spec(observed_height, deadline) >= 0,
                policy.block_interval_secs >= 0,
        ;
    }

    /// The wait covers every block that is still to come, at the expected interval.
    pub proof fn lemma_wait_grows_with_distance(
        policy: WaitPolicy,
        observed_height: u32,
        nearer: u64,
        farther: u64,
    )
        requires
            nearer <= farther,
        ensures
            policy.wait_spec(observed_height, nearer) <= policy.wait_spec(observed_height, farther),
    {
        assert(blocks_remaining_spec(observed_height, nearer) * policy.block_interval_secs
            <= blocks_remaining_spec(observed_height, farther) * policy.block_interval_secs)
            by (nonlinear_arith)
            requires
                blocks_remaining_spec(observed_height, nearer) <= blocks_remaining_spec(
                    observed_height,
                    farther,
                ),
                policy.block_interval_secs >= 0,
        ;
    }
}

} // verus!
