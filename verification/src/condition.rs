//! The rule that the condition script enforces when a note is consumed.
//!
//! The script itself runs on the ledger. What it decides is fixed here: a note is locked until the
//! ledger reaches its deadline height, and from then on it yields to its beneficiary alone.

use vstd::prelude::*;
use crate::identity::AccountId;

verus! {

/// The two states of a time-locked note.
#[derive(Clone, Copy, Debug, PartialEq, Eq, Structural)]
pub enum LockState {
    /// The ledger has not reached the deadline: nobody can consume the note.
    Locked,
    /// The ledger has reached the deadline: the beneficiary can consume the note.
    Releasable,
}

/// Why the condition refuses a consumption attempt.
#[derive(Clone, Copy, Debug, PartialEq, Eq, Structural)]
pub enum Refusal {
    /// The ledger height is below the deadline.
    DeadlineNotReached,
    /// The consuming account is not the beneficiary.
    NotBeneficiary,
}

/// What the script sees when it runs: the ledger height and the consuming account.
#[derive(Clone, Copy, Debug, PartialEq, Eq, Structural)]
pub struct Context {
    pub height: u32,
    pub consumer: AccountId,
}

/// A consumption rule that a note can carry.
pub trait ConsumptionPredicate {
    /// The attempts that the rule lets through.
    spec fn accepts(&self, ctx: Context) -> bool;

    fn evaluate(&self, ctx: &Context) -> (ok: bool)
        ensures
            ok == self.accepts(*ctx),
    ;
}

/// The typed inputs of the condition script: a deadline height and the beneficiary.
#[derive(Clone, Copy, Debug, PartialEq, Eq, Structural)]
pub struct Condition {
    pub deadline: u64,
    pub beneficiary: AccountId,
}

/// The number of inputs that the script reads.
pub const INPUT_COUNT: usize = 3;

impl Condition {
    /// The state of a note under this condition when the ledger is at `height`.
    pub open spec fn state_at(&self, height: u32) -> LockState {
        if height < self.deadline {
            LockState::Locked
        } else {
            LockState::Releasable
        }
    }

    /// The script's verdict on an attempt. The deadline is tested first, so an attempt that is
    /// both early and by a stranger is refused for being early.
    pub open spec fn verdict_spec(&self, ctx: Context) -> Result<(), Refusal> {
        if ctx.height < self.deadline {
            Err(Refusal::DeadlineNotReached)
        } else if ctx.consumer != self.beneficiary {
            Err(Refusal::NotBeneficiary)
        } else {
            Ok(())
        }
    }

    /// The inputs in the script's positional layout: deadline, beneficiary suffix, beneficiary
    /// prefix.
    pub open spec fn encoding(&self) -> Seq<u64> {
        seq![self.deadline, self.beneficiary.suffix, self.beneficiary.prefix]
    }

    pub fn new(deadline: u64, beneficiary: AccountId) -> (c: Condition)
        ensures
            c == (Condition { deadline, beneficiary }),
    {
        Condition { deadline, beneficiary }
    }

    pub fn lock_state(&self, height: u32) -> (s: LockState)
        ensures
            s == self.state_at(height),
    {
        if (height as u64) < self.deadline {
            LockState::Locked
        } else {
            LockState::Releasable
        }
    }

    pub fn verdict(&self, ctx: &Context) -> (v: Result<(), Refusal>)
        ensures
            v == self.verdict_spec(*ctx),
            v is Ok <==> self.accepts(*ctx),
    {
        if (ctx.height as u64) < self.deadline {
            Err(Refusal::DeadlineNotReached)
        } else if !ctx.consumer.same_as(&self.beneficiary) {
            Err(Refusal::NotBeneficiary)
        } else {
            Ok(())
        }
    }

    pub fn encode(&self) -> (values: Vec<u64>)
        ensures
            values@ == self.encoding(),
    {
        let mut values: Vec<u64> = Vec::with_capacity(INPUT_COUNT);
        values.push(self.deadline);
        values.push(self.beneficiary.suffix);
        values.push(self.beneficiary.prefix);
        values
    }

    /// Reads a condition back from script inputs. Any other number of inputs than three is not
    /// a condition.
    pub fn decode(values: &[u64]) -> (r: Option<Condition>)
        ensures
            values@.len() == INPUT_COUNT ==> r == Some(
                Condition {
                    deadline: values@[0],
                    beneficiary: AccountId { prefix: values@[2], suffix: values@[1] },
                },
            ),
            values@.len() != INPUT_COUNT ==> r is None,
    {
        if values.len() != INPUT_COUNT {
            return None;
        }
        Some(
            Condition {
                deadline: values[0],
                beneficiary: AccountId { prefix: values[2], suffix: values[1] },
            },
        )
    }

    /// Decoding undoes encoding.
    pub proof fn lemma_encoding_round_trip(c: Condition, values: Seq<u64>)
        requires
            values == c.encoding(),
        ensures
            values.len() == INPUT_COUNT,
            c == (Condition {
                deadline: values[0],
                beneficiary: AccountId { prefix: values[2], suffix: values[1] },
            }),
    {
    }

    /// Two conditions with the same encoding are the same condition.
    pub proof fn lemma_encoding_injective(a: Condition, b: Condition)
        requires
            a.encoding() == b.encoding(),
        ensures
            a == b,
    {
        Self::lemma_encoding_round_trip(a, a.encoding());
        Self::lemma_encoding_round_trip(b, b.encoding());
    }

    /// A locked note accepts no consumer, whoever it is.
    pub proof fn lemma_locked_accepts_nobody(c: Condition, ctx: Context)
        requires
            c.state_at(ctx.height) == LockState::Locked,
        ensures
            !c.accepts(ctx),
            c.verdict_spec(ctx) == Err::<(), Refusal>(Refusal::DeadlineNotReached),
    {
    }

    /// At any height, an account other than the beneficiary is refused: reaching the deadline is
    /// not enough.
    pub proof fn lemma_stranger_is_refused(c: Condition, ctx: Context)
        requires
            ctx.consumer != c.beneficiary,
        ensures
            !c.accepts(ctx),
            c.state_at(ctx.height) == LockState::Releasable ==> c.verdict_spec(ctx) == Err::<
                (),
                Refusal,
            >(Refusal::NotBeneficiary),
    {
    }

    /// Once releasable, the beneficiary is accepted.
    pub proof fn lemma_beneficiary_is_accepted(c: Condition, height: u32)
        requires
            c.state_at(height) == LockState::Releasable,
        ensures
            c.accepts(Context { height, consumer: c.beneficiary }),
    {
    }

    /// The state depends on the height alone and never goes back to locked as the height grows.
    pub proof fn lemma_release_is_irreversible(c: Condition, earlier: u32, later: u32)
        requires
            earlier <= later,
            c.state_at(earlier) == LockState::Releasable,
        ensures
            c.state_at(later) == LockState::Releasable,
    {
    }

    /// The verdict lets an attempt through exactly when the note is releasable and the consumer
    /// is the beneficiary.
    pub proof fn lemma_accepts_iff(c: Condition, ctx: Context)
        ensures
            c.accepts(ctx) <==> c.state_at(ctx.height) == LockState::Releasable && ctx.consumer
                == c.beneficiary,
            c.accepts(ctx) <==> c.verdict_spec(ctx) is Ok,
    {
    }
}

impl ConsumptionPredicate for Condition {
    open spec fn accepts(&self, ctx: Context) -> bool {
        ctx.height >= self.deadline && ctx.consumer == self.beneficiary
    }

    fn evaluate(&self, ctx: &Context) -> (ok: bool) {
        (ctx.height as u64) >= self.deadline && ctx.consumer.same_as(&self.beneficiary)
    }
}

} // verus!
