//! The vault's flow from an empty ledger client to a consumed note.
//!
//! The steps are strictly sequential: each needs the ledger state that the one before produced.
//! The flow decides what comes next; the caller performs the command and reports what happened.
//! A failure of any step ends the flow. Nothing is kept across runs: an interrupted flow is
//! taken up again at the last phase that the ledger confirmed, by performing the command that
//! this phase waits for. A transaction that the ledger had already accepted is then rejected,
//! not applied twice.

use vstd::prelude::*;
use crate::asset::{Faucet, MAX_AMOUNT};
use crate::identity::AccountId;
use crate::note::NoteTerms;
use crate::orchestrator::{Receipt, SubmissionError};
use crate::schedule::{blocks_remaining_spec, WaitPolicy};
use crate::word::Word;

verus! {

/// What the flow is to do: how much to issue, how much to lock, for how many blocks, and how
/// long to wait for them.
#[derive(Clone, Copy, Debug, PartialEq, Eq, Structural)]
pub struct VaultPlan {
    /// The declared maximum supply of the faucet.
    pub max_supply: u64,
    /// The amount minted to the owner.
    pub mint_amount: u64,
    /// The amount locked in the note.
    pub note_amount: u64,
    /// The number of blocks between the height at which the note is built and its deadline.
    pub lock_blocks: u32,
    /// How the wait for the deadline is estimated.
    pub policy: WaitPolicy,
}

/// The two accounts that the flow creates.
#[derive(Clone, Copy, Debug, PartialEq, Eq, Structural)]
pub enum Role {
    Owner,
    Beneficiary,
}

/// The kinds of failure that end the flow.
#[derive(Clone, Copy, Debug, PartialEq, Eq, Structural)]
pub enum Failure {
    /// The note could not be constructed, or its deadline can never be reached.
    Construction,
    /// The ledger rejected a transaction.
    SubmissionRejected,
    /// The ledger could not be reached.
    Network,
    /// The ledger state could not be refreshed.
    Synchronization,
}

/// The accounts that take part, once they exist.
#[derive(Clone, Copy, Debug, PartialEq, Eq, Structural)]
pub struct Parties {
    pub owner: AccountId,
    pub beneficiary: AccountId,
    pub faucet: AccountId,
}

/// The note in flight: its identifier, its deadline and the height at which it was built.
#[derive(Clone, Copy, Debug, PartialEq, Eq, Structural)]
pub struct Locked {
    pub note: Word,
    pub deadline: u64,
    pub built_at: u32,
}

/// Where the flow stands.
#[derive(Clone, Copy, Debug, PartialEq, Eq, Structural)]
pub enum Phase {
    Connecting,
    CreatingOwner,
    CreatingBeneficiary { owner: AccountId },
    DeployingFaucet { owner: AccountId, beneficiary: AccountId },
    SyncingFaucet { parties: Parties },
    Minting { parties: Parties },
    SyncingMint { parties: Parties },
    Building { parties: Parties, deadline: u64, built_at: u32 },
    Emitting { parties: Parties, locked: Locked },
    Waiting { parties: Parties, locked: Locked, emitted: Receipt },
    Consuming { parties: Parties, locked: Locked, emitted: Receipt },
    Done { parties: Parties, locked: Locked, emitted: Receipt, consumed: Receipt },
    Failed(Failure),
}

/// What the caller reports after performing a command.
#[derive(Clone, Copy, Debug, PartialEq, Eq, Structural)]
pub enum Event {
    Synchronized(u32),
    AccountCreated(AccountId),
    FaucetDeployed(AccountId),
    Minted,
    NoteBuilt(Word),
    Submitted(Receipt),
    Woke,
    Failed(Failure),
}

/// What the caller is to do next.
#[derive(Clone, Copy, Debug, PartialEq, Eq, Structural)]
pub enum Command {
    Synchronize,
    CreateAccount(Role),
    DeployFaucet { max_supply: u64 },
    Mint { faucet: AccountId, to: AccountId, amount: u64 },
    BuildNote { terms: NoteTerms, current_height: u32 },
    SubmitOutput { account: AccountId, note: Word },
    Sleep { secs: u64 },
    SubmitConsumption { account: AccountId, note: Word },
    Finish,
    Abort(Failure),
}

/// The event that the end of a submission is for the flow: the receipt where there is one, and
/// otherwise the kind of failure that the error stands for.
pub open spec fn submission_event_spec(outcome: Result<Receipt, SubmissionError>) -> Event {
    match outcome {
        Ok(receipt) => Event::Submitted(receipt),
        Err(SubmissionError::SubmissionRejected(_)) => Event::Failed(Failure::SubmissionRejected),
        Err(SubmissionError::NetworkError(_)) => Event::Failed(Failure::Network),
        Err(SubmissionError::SynchronizationError(_)) => Event::Failed(Failure::Synchronization),
    }
}

/// Reports the end of a submission to the flow.
pub fn submission_event(outcome: &Result<Receipt, SubmissionError>) -> (e: Event)
    ensures
        e == submission_event_spec(*outcome),
{
    match outcome {
        Ok(receipt) => Event::Submitted(*receipt),
        Err(SubmissionError::SubmissionRejected(_)) => Event::Failed(Failure::SubmissionRejected),
        Err(SubmissionError::NetworkError(_)) => Event::Failed(Failure::Network),
        Err(SubmissionError::SynchronizationError(_)) => Event::Failed(Failure::Synchronization),
    }
}

impl VaultPlan {
    /// The terms of the note that the flow builds when the ledger is at `height`.
    pub open spec fn terms_at(&self, parties: Parties, height: u32) -> NoteTerms {
        NoteTerms {
            sender: parties.owner,
            faucet: Faucet { id: parties.faucet, max_supply: self.max_supply },
            amount: self.note_amount,
            beneficiary: parties.beneficiary,
            deadline: (height + self.lock_blocks) as u64,
        }
    }

    /// The phase and the command that follow an event.
    ///
    /// A reported failure ends the flow from any phase that is still running. Otherwise each
    /// phase takes the one event it waits for and moves on; any other event changes nothing.
    /// The deadline is the height seen after the mint plus the plan's lock. A deadline beyond
    /// the last height that the chain can reach ends the flow as a construction failure.
    pub open spec fn step_spec(&self, phase: Phase, event: Event) -> (Phase, Option<Command>) {
        match (phase, event) {
            (Phase::Done { .. }, _) => (phase, None),
            (Phase::Failed(_), _) => (phase, None),
            (_, Event::Failed(failure)) => (Phase::Failed(failure), Some(Command::Abort(failure))),
            (Phase::Connecting, Event::Synchronized(_)) => (
                Phase::CreatingOwner,
                Some(Command::CreateAccount(Role::Owner)),
            ),
            (Phase::CreatingOwner, Event::AccountCreated(owner)) => (
                Phase::CreatingBeneficiary { owner },
                Some(Command::CreateAccount(Role::Beneficiary)),
            ),
            (Phase::CreatingBeneficiary { owner }, Event::AccountCreated(beneficiary)) => (
                Phase::DeployingFaucet { owner, beneficiary },
                Some(Command::DeployFaucet { max_supply: self.max_supply }),
            ),
            (Phase::DeployingFaucet { owner, beneficiary }, Event::FaucetDeployed(faucet)) => (
                Phase::SyncingFaucet { parties: Parties { owner, beneficiary, faucet } },
                Some(Command::Synchronize),
            ),
            (Phase::SyncingFaucet { parties }, Event::Synchronized(_)) => (
                Phase::Minting { parties },
                Some(
                    Command::Mint {
                        faucet: parties.faucet,
                        to: parties.owner,
                        amount: self.mint_amount,
                    },
                ),
            ),
            (Phase::Minting { parties }, Event::Minted) => (
                Phase::SyncingMint { parties },
                Some(Command::Synchronize),
            ),
            (Phase::SyncingMint { parties }, Event::Synchronized(height)) => if height
                + self.lock_blocks > u32::MAX {
                (Phase::Failed(Failure::Construction), Some(Command::Abort(Failure::Construction)))
            } else {
                (
                    Phase::Building {
                        parties,
                        deadline: (height + self.lock_blocks) as u64,
                        built_at: height,
                    },
                    Some(
                        Command::BuildNote {
                            terms: self.terms_at(parties, height),
                            current_height: height,
                        },
                    ),
                )
            },
            (Phase::Building { parties, deadline, built_at }, Event::NoteBuilt(note)) => (
                Phase::Emitting { parties, locked: Locked { note, deadline, built_at } },
                Some(Command::SubmitOutput { account: parties.owner, note }),
            ),
            (Phase::Emitting { parties, locked }, Event::Submitted(emitted)) => if locked.deadline
                > u32::MAX {
                (Phase::Failed(Failure::Construction), Some(Command::Abort(Failure::Construction)))
            } else {
                (
                    Phase::Waiting { parties, locked, emitted },
                    Some(
                        Command::Sleep {
                            secs: self.policy.wait_spec(locked.built_at, locked.deadline) as u64,
                        },
                    ),
                )
            },
            (Phase::Waiting { parties, locked, emitted }, Event::Woke) => (
                Phase::Consuming { parties, locked, emitted },
                Some(Command::SubmitConsumption { account: parties.beneficiary, note: locked.note }),
            ),
            (Phase::Consuming { parties, locked, emitted }, Event::Submitted(consumed)) => (
                Phase::Done { parties, locked, emitted, consumed },
                Some(Command::Finish),
            ),
            _ => (phase, None),
        }
    }

    /// The command whose outcome a phase waits for, if the flow is still running.
    pub open spec fn pending_spec(&self, phase: Phase) -> Option<Command> {
        match phase {
            Phase::Connecting => Some(Command::Synchronize),
            Phase::CreatingOwner => Some(Command::CreateAccount(Role::Owner)),
            Phase::CreatingBeneficiary { .. } => Some(Command::CreateAccount(Role::Beneficiary)),
            Phase::DeployingFaucet { .. } => Some(
                Command::DeployFaucet { max_supply: self.max_supply },
            ),
            Phase::SyncingFaucet { .. } => Some(Command::Synchronize),
            Phase::Minting { parties } => Some(
                Command::Mint {
                    faucet: parties.faucet,
                    to: parties.owner,
                    amount: self.mint_amount,
                },
            ),
            Phase::SyncingMint { .. } => Some(Command::Synchronize),
            Phase::Building { parties, deadline, built_at } => Some(
                Command::BuildNote {
                    terms: NoteTerms {
                        sender: parties.owner,
                        faucet: Faucet { id: parties.faucet, max_supply: self.max_supply },
                        amount: self.note_amount,
                        beneficiary: parties.beneficiary,
                        deadline,
                    },
                    current_height: built_at,
                },
            ),
            Phase::Emitting { parties, locked } => Some(
                Command::SubmitOutput { account: parties.owner, note: locked.note },
            ),
            Phase::Waiting { locked, .. } => if locked.deadline > u32::MAX {
                None
            } else {
                Some(
                    Command::Sleep {
                        secs: self.policy.wait_spec(locked.built_at, locked.deadline) as u64,
                    },
                )
            },
            Phase::Consuming { parties, locked, .. } => Some(
                Command::SubmitConsumption { account: parties.beneficiary, note: locked.note },
            ),
            Phase::Done { .. } => None,
            Phase::Failed(_) => None,
        }
    }

    /// The command to perform when the flow is taken up at `phase`.
    pub fn pending(&self, phase: &Phase) -> (r: Option<Command>)
        ensures
            r == self.pending_spec(*phase),
    {
        match *phase {
            Phase::Connecting => Some(Command::Synchronize),
            Phase::CreatingOwner => Some(Command::CreateAccount(Role::Owner)),
            Phase::CreatingBeneficiary { .. } => Some(Command::CreateAccount(Role::Beneficiary)),
            Phase::DeployingFaucet { .. } => Some(
                Command::DeployFaucet { max_supply: self.max_supply },
            ),
            Phase::SyncingFaucet { .. } => Some(Command::Synchronize),
            Phase::Minting { parties } => Some(
                Command::Mint {
                    faucet: parties.faucet,
                    to: parties.owner,
                    amount: self.mint_amount,
                },
            ),
            Phase::SyncingMint { .. } => Some(Command::Synchronize),
            Phase::Building { parties, deadline, built_at } => Some(
                Command::BuildNote {
                    terms: NoteTerms {
                        sender: parties.owner,
                        faucet: Faucet { id: parties.faucet, max_supply: self.max_supply },
                        amount: self.note_amount,
                        beneficiary: parties.beneficiary,
                        deadline,
                    },
                    current_height: built_at,
                },
            ),
            Phase::Emitting { parties, locked } => Some(
                Command::SubmitOutput { account: parties.owner, note: locked.note },
            ),
            Phase::Waiting { locked, .. } => match self.policy.wait_secs(
                locked.built_at,
                locked.deadline,
            ) {
                Some(secs) => Some(Command::Sleep { secs }),
                None => None,
            },
            Phase::Consuming { parties, locked, .. } => Some(
                Command::SubmitConsumption { account: parties.beneficiary, note: locked.note },
            ),
            Phase::Done { .. } => None,
            Phase::Failed(_) => None,
        }
    }

    /// The flow begins by connecting: the first command is a synchronization.
    pub fn start(&self) -> (r: (Phase, Command))
        ensures
            r == (Phase::Connecting, Command::Synchronize),
    {
        (Phase::Connecting, Command::Synchronize)
    }

    /// Takes what the caller reports and says what to do next.
    pub fn step(&self, phase: Phase, event: Event) -> (r: (Phase, Option<Command>))
        ensures
            r == self.step_spec(phase, event),
    {
        match (phase, event) {
            (Phase::Done { .. }, _) => (phase, None),
            (Phase::Failed(_), _) => (phase, None),
            (_, Event::Failed(failure)) => (Phase::Failed(failure), Some(Command::Abort(failure))),
            (Phase::Connecting, Event::Synchronized(_)) => (
                Phase::CreatingOwner,
                Some(Command::CreateAccount(Role::Owner)),
            ),
            (Phase::CreatingOwner, Event::AccountCreated(owner)) => (
                Phase::CreatingBeneficiary { owner },
                Some(Command::CreateAccount(Role::Beneficiary)),
            ),
            (Phase::CreatingBeneficiary { owner }, Event::AccountCreated(beneficiary)) => (
                Phase::DeployingFaucet { owner, beneficiary },
                Some(Command::DeployFaucet { max_supply: self.max_supply }),
            ),
            (Phase::DeployingFaucet { owner, beneficiary }, Event::FaucetDeployed(faucet)) => (
                Phase::SyncingFaucet { parties: Parties { owner, beneficiary, faucet } },
                Some(Command::Synchronize),
            ),
            (Phase::SyncingFaucet { parties }, Event::Synchronized(_)) => (
                Phase::Minting { parties },
                Some(
                    Command::Mint {
                        faucet: parties.faucet,
                        to: parties.owner,
                        amount: self.mint_amount,
                    },
                ),
            ),
            (Phase::Minting { parties }, Event::Minted) => (
                Phase::SyncingMint { parties },
                Some(Command::Synchronize),
            ),
            (Phase::SyncingMint { parties }, Event::Synchronized(height)) => {
                let deadline = height as u64 + self.lock_blocks as u64;
                if deadline > u32::MAX as u64 {
                    (
                        Phase::Failed(Failure::Construction),
                        Some(Command::Abort(Failure::Construction)),
                    )
                } else {
                    let terms = NoteTerms {
                        sender: parties.owner,
                        faucet: Faucet { id: parties.faucet, max_supply: self.max_supply },
                        amount: self.note_amount,
                        beneficiary: parties.beneficiary,
                        deadline,
                    };
                    (
                        Phase::Building { parties, deadline, built_at: height },
                        Some(Command::BuildNote { terms, current_height: height }),
                    )
                }
            },
            (Phase::Building { parties, deadline, built_at }, Event::NoteBuilt(note)) => (
                Phase::Emitting { parties, locked: Locked { note, deadline, built_at } },
                Some(Command::SubmitOutput { account: parties.owner, note }),
            ),
            (Phase::Emitting { parties, locked }, Event::Submitted(emitted)) => {
                match self.policy.wait_secs(locked.built_at, locked.deadline) {
                    Some(secs) => (
                        Phase::Waiting { parties, locked, emitted },
                        Some(Command::Sleep { secs }),
                    ),
                    None => (
                        Phase::Failed(Failure::Construction),
                        Some(Command::Abort(Failure::Construction)),
                    ),
                }
            },
            (Phase::Waiting { parties, locked, emitted }, Event::Woke) => (
                Phase::Consuming { parties, locked, emitted },
                Some(Command::SubmitConsumption { account: parties.beneficiary, note: locked.note }),
            ),
            (Phase::Consuming { parties, locked, emitted }, Event::Submitted(consumed)) => (
                Phase::Done { parties, locked, emitted, consumed },
                Some(Command::Finish),
            ),
            _ => (phase, None),
        }
    }

    /// The flow has ended, well or not.
    pub open spec fn ended(phase: Phase) -> bool {
        phase is Done || phase is Failed
    }

    pub fn has_ended(phase: &Phase) -> (r: bool)
        ensures
            r == Self::ended(*phase),
    {
        match phase {
            Phase::Done { .. } => true,
            Phase::Failed(_) => true,
            _ => false,
        }
    }

    /// Whenever a step moves the flow to a phase that is still running, the command it gives is
    /// the one that this phase waits for: taking the flow up at a phase repeats its command.
    pub proof fn lemma_step_commands_the_pending(plan: VaultPlan, phase: Phase, event: Event)
        requires
            plan.step_spec(phase, event).0 != phase,
            !Self::ended(plan.step_spec(phase, event).0),
        ensures
            plan.step_spec(phase, event).1 == plan.pending_spec(plan.step_spec(phase, event).0),
    {
    }

    /// A flow that has ended stays as it is.
    pub proof fn lemma_ended_flow_stays(plan: VaultPlan, phase: Phase, event: Event)
        requires
            Self::ended(phase),
        ensures
            plan.step_spec(phase, event) == (phase, None::<Command>),
    {
    }

    /// A failure reported while the flow is running ends it, with that failure.
    pub proof fn lemma_failure_ends_flow(plan: VaultPlan, phase: Phase, failure: Failure)
        requires
            !Self::ended(phase),
        ensures
            plan.step_spec(phase, Event::Failed(failure)) == (
                Phase::Failed(failure),
                Some(Command::Abort(failure)),
            ),
    {
    }

    /// The consumption is commanded only when the wait is over, and it is always the
    /// beneficiary that is to consume, never the owner or the faucet.
    pub proof fn lemma_consumption_follows_the_wait(plan: VaultPlan, phase: Phase, event: Event)
        requires
            plan.step_spec(phase, event).1 is Some,
            plan.step_spec(phase, event).1->Some_0 is SubmitConsumption,
        ensures
            event is Woke,
            phase is Waiting,
            plan.step_spec(phase, event).1->Some_0->SubmitConsumption_account
                == phase->Waiting_parties.beneficiary,
            plan.step_spec(phase, event).1->Some_0->SubmitConsumption_note
                == phase->Waiting_locked.note,
    {
    }

    /// The note is built with a deadline that lies `lock_blocks` after the height just seen,
    /// so strictly after it whenever the plan locks for at least one block.
    pub proof fn lemma_deadline_lies_ahead(plan: VaultPlan, phase: Phase, event: Event)
        requires
            plan.step_spec(phase, event).1 is Some,
            plan.step_spec(phase, event).1->Some_0 is BuildNote,
        ensures
            ({
                let terms = plan.step_spec(phase, event).1->Some_0->BuildNote_terms;
                let height = plan.step_spec(phase, event).1->Some_0->BuildNote_current_height;
                &&& event == Event::Synchronized(height)
                &&& terms.deadline == height + plan.lock_blocks
                &&& terms.deadline <= u32::MAX
                &&& plan.lock_blocks > 0 ==> terms.deadline > height
                &&& terms.amount == plan.note_amount
            }),
    {
    }

    /// A plan that locks a positive amount within the faucet's supply, between well-formed
    /// parties and for at least one block, asks for a note that the builder does not refuse on
    /// its terms.
    pub proof fn lemma_planned_terms_are_acceptable(plan: VaultPlan, parties: Parties, height: u32)
        requires
            0 < plan.note_amount <= plan.max_supply <= MAX_AMOUNT,
            plan.lock_blocks > 0,
            height + plan.lock_blocks <= u32::MAX,
            parties.owner.well_formed(),
            parties.beneficiary.well_formed(),
            parties.faucet.well_formed(),
            parties.faucet.is_fungible_faucet(),
        ensures
            plan.step_spec(Phase::SyncingMint { parties }, Event::Synchronized(height)).1 == Some(
                Command::BuildNote {
                    terms: plan.terms_at(parties, height),
                    current_height: height,
                },
            ),
            plan.terms_at(parties, height).refusal(height) is None,
    {
    }

    /// The sleep that follows the emission is the policy's wait for the note's deadline, seen
    /// from the height at which the note was built.
    pub proof fn lemma_sleep_is_the_policys_wait(plan: VaultPlan, phase: Phase, event: Event)
        requires
            plan.step_spec(phase, event).1 is Some,
            plan.step_spec(phase, event).1->Some_0 is Sleep,
        ensures
            phase is Emitting,
            plan.step_spec(phase, event).1->Some_0->Sleep_secs == plan.policy.wait_spec(
                phase->Emitting_locked.built_at,
                phase->Emitting_locked.deadline,
            ),
    {
        let locked = phase->Emitting_locked;
        assert(blocks_remaining_spec(locked.built_at, locked.deadline)
            * plan.policy.block_interval_secs <= 0xffff_ffff * 0xffff_ffff) by (nonlinear_arith)
            requires
                0 <= blocks_remaining_spec(locked.built_at, locked.deadline) <= 0xffff_ffff,
                0 <= plan.policy.block_interval_secs <= 0xffff_ffff,
        ;
        assert(blocks_remaining_spec(locked.built_at, locked.deadline)
            * plan.policy.block_interval_secs >= 0) by (nonlinear_arith)
            requires
                0 <= blocks_remaining_spec(locked.built_at, locked.deadline),
                0 <= plan.policy.block_interval_secs,
        ;
    }
}

} // verus!
