//! The decisions of one settlement: which transfer to ask for next, and
//! whether to commit or abort once the token program has answered.
//!
//! The host performs each transfer the machine asks for and hands back
//! whether it went through. A failed transfer is never compensated: the
//! machine aborts and the host reverts everything the settlement did.
use vstd::prelude::*;
use crate::accounts::Recipient;
use crate::split::{author_share, platform_share, split_amounts, SplitAmounts, SplitError};

verus! {

/// Where a settlement stands.
#[derive(Clone, Copy, Debug, PartialEq, Eq, Structural)]
pub enum Stage {
    /// The transfer to the author has been asked for.
    AwaitingAuthorTransfer,
    /// The author was paid; the transfer to the platform has been asked for.
    AwaitingPlatformTransfer,
    /// Both transfers went through.
    Committed,
    /// The settlement failed and everything it did is to be reverted.
    Aborted(SplitError),
}

/// What the token program answered to a transfer.
#[derive(Clone, Copy, Debug, PartialEq, Eq, Structural)]
pub enum TransferOutcome {
    Succeeded,
    Failed,
}

/// What the host is to do next.
#[derive(Clone, Copy, Debug, PartialEq, Eq, Structural)]
pub enum Action {
    /// Move `amount` from the payer's token account to `recipient`'s.
    Transfer { recipient: Recipient, amount: u64 },
    /// Keep every effect of the settlement.
    Commit,
    /// Fail the settlement; the host reverts its effects.
    Abort(SplitError),
}

/// One settlement in progress.
#[derive(Clone, Copy, Debug, PartialEq, Eq, Structural)]
pub struct Settlement {
    pub amount: u64,
    pub shares: SplitAmounts,
    pub stage: Stage,
}

/// The settlement of `amount` right after it began.
pub open spec fn started(amount: u64) -> Settlement {
    Settlement {
        amount,
        shares: SplitAmounts {
            author_amount: author_share(amount as nat) as u64,
            platform_amount: platform_share(amount as nat) as u64,
        },
        stage: Stage::AwaitingAuthorTransfer,
    }
}

/// The first thing a settlement asks for: the author's payout.
pub open spec fn first_action(s: Settlement) -> Action {
    Action::Transfer { recipient: Recipient::Author, amount: s.shares.author_amount }
}

/// The next state and action once the pending transfer has been answered.
/// A finished settlement stays as it is and repeats its verdict.
pub open spec fn step(s: Settlement, outcome: TransferOutcome) -> (Settlement, Action) {
    match s.stage {
        Stage::AwaitingAuthorTransfer => match outcome {
            TransferOutcome::Succeeded => (
                Settlement { stage: Stage::AwaitingPlatformTransfer, ..s },
                Action::Transfer {
                    recipient: Recipient::Platform,
                    amount: s.shares.platform_amount,
                },
            ),
            TransferOutcome::Failed => (
                Settlement { stage: Stage::Aborted(SplitError::AuthorTransferFailed), ..s },
                Action::Abort(SplitError::AuthorTransferFailed),
            ),
        },
        Stage::AwaitingPlatformTransfer => match outcome {
            TransferOutcome::Succeeded => (
                Settlement { stage: Stage::Committed, ..s },
                Action::Commit,
            ),
            TransferOutcome::Failed => (
                Settlement { stage: Stage::Aborted(SplitError::PlatformTransferFailed), ..s },
                Action::Abort(SplitError::PlatformTransferFailed),
            ),
        },
        Stage::Committed => (s, Action::Commit),
        Stage::Aborted(e) => (s, Action::Abort(e)),
    }
}

impl Settlement {
    /// Starts the settlement of `amount`: computes the two payouts and asks
    /// for the transfer to the author.
    pub fn begin(amount: u64) -> (r: Result<(Settlement, Action), SplitError>)
        ensures
            r matches Ok((s, a)) && s == started(amount) && a == first_action(s),
    {
        let shares = match split_amounts(amount) {
            Ok(shares) => shares,
            Err(e) => return Err(e),
        };
        let s = Settlement { amount, shares, stage: Stage::AwaitingAuthorTransfer };
        Ok((s, Action::Transfer { recipient: Recipient::Author, amount: shares.author_amount }))
    }

    /// Takes the token program's answer to the pending transfer and says
    /// what to do next.
    pub fn on_transfer(&mut self, outcome: TransferOutcome) -> (a: Action)
        ensures
            (*final(self), a) == step(*old(self), outcome),
    {
        let s = *self;
        match (s.stage, outcome) {
            (Stage::AwaitingAuthorTransfer, TransferOutcome::Succeeded) => {
                self.stage = Stage::AwaitingPlatformTransfer;
                Action::Transfer { recipient: Recipient::Platform, amount: s.shares.platform_amount }
            },
            (Stage::AwaitingAuthorTransfer, TransferOutcome::Failed) => {
                self.stage = Stage::Aborted(SplitError::AuthorTransferFailed);
                Action::Abort(SplitError::AuthorTransferFailed)
            },
            (Stage::AwaitingPlatformTransfer, TransferOutcome::Succeeded) => {
                self.stage = Stage::Committed;
                Action::Commit
            },
            (Stage::AwaitingPlatformTransfer, TransferOutcome::Failed) => {
                self.stage = Stage::Aborted(SplitError::PlatformTransferFailed);
                Action::Abort(SplitError::PlatformTransferFailed)
            },
            (Stage::Committed, _) => Action::Commit,
            (Stage::Aborted(e), _) => Action::Abort(e),
        }
    }

    /// Whether the settlement has committed or aborted.
    pub fn is_finished(&self) -> (r: bool)
        ensures
            r == (self.stage is Committed || self.stage is Aborted),
    {
        match self.stage {
            Stage::Committed | Stage::Aborted(_) => true,
            _ => false,
        }
    }
}

} // verus!
