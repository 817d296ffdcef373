//! What a settlement does to the balances of the three token accounts.
//!
//! The token program is taken to enforce what the settlement relies on: a
//! transfer goes through exactly when both accounts hold the same mint and
//! the debited account holds at least the amount, and it then moves that
//! amount. The host keeps the effects of a settlement that commits and
//! reverts those of one that aborts. The three token accounts are distinct.
use vstd::prelude::*;
use crate::accounts::Recipient;
use crate::settlement::{first_action, started, step, Action, Settlement, Stage, TransferOutcome};
use crate::split::{author_share, lemma_shares_sum_to_amount, platform_share};

verus! {

/// A token account: the mint it holds and its balance.
pub struct TokenAccount {
    pub mint: int,
    pub balance: nat,
}

/// The payer's, the author's and the platform's token accounts.
pub struct Ledger {
    pub source: TokenAccount,
    pub author: TokenAccount,
    pub platform: TokenAccount,
}

impl Ledger {
    /// The token account that `r` is paid into.
    pub open spec fn account_of(self, r: Recipient) -> TokenAccount {
        match r {
            Recipient::Author => self.author,
            Recipient::Platform => self.platform,
        }
    }

    /// Whether the token program carries out a transfer of `amount` from
    /// the source to `r`.
    pub open spec fn accepts(self, r: Recipient, amount: nat) -> bool {
        &&& self.source.mint == self.account_of(r).mint
        &&& self.source.balance >= amount
    }

    /// The ledger after a transfer of `amount` from the source to `r`.
    pub open spec fn transfer(self, r: Recipient, amount: nat) -> Ledger {
        let source = TokenAccount {
            balance: (self.source.balance - amount) as nat,
            ..self.source
        };
        match r {
            Recipient::Author => Ledger {
                source,
                author: TokenAccount { balance: self.author.balance + amount, ..self.author },
                ..self
            },
            Recipient::Platform => Ledger {
                source,
                platform: TokenAccount { balance: self.platform.balance + amount, ..self.platform },
                ..self
            },
        }
    }
}

/// Rank of a stage: how many transfers may still be asked for.
pub open spec fn stage_rank(s: Stage) -> nat {
    match s {
        Stage::AwaitingAuthorTransfer => 2,
        Stage::AwaitingPlatformTransfer => 1,
        _ => 0,
    }
}

/// Carries out the settlement's actions on `ledger` until it commits or
/// aborts. Returns the final settlement and the ledger the host keeps:
/// `ledger` itself on commit, `initial` on abort.
pub open spec fn run(s: Settlement, a: Action, ledger: Ledger, initial: Ledger) -> (Settlement, Ledger)
    decreases 2 * stage_rank(s.stage) + (if a is Transfer { 1nat } else { 0nat }),
{
    match a {
        Action::Transfer { recipient, amount } => {
            if ledger.accepts(recipient, amount as nat) {
                let next = step(s, TransferOutcome::Succeeded);
                run(next.0, next.1, ledger.transfer(recipient, amount as nat), initial)
            } else {
                let next = step(s, TransferOutcome::Failed);
                run(next.0, next.1, ledger, initial)
            }
        },
        Action::Commit => (s, ledger),
        Action::Abort(_) => (s, initial),
    }
}

/// The whole settlement of `amount` against `ledger`.
pub open spec fn settle(ledger: Ledger, amount: u64) -> (Settlement, Ledger) {
    run(started(amount), first_action(started(amount)), ledger, ledger)
}

/// Whether the settlement of `amount` against `ledger` commits.
pub open spec fn commits(ledger: Ledger, amount: u64) -> bool {
    settle(ledger, amount).0.stage is Committed
}

/// A settlement commits exactly when the author's and the platform's
/// accounts hold the source's mint and the source holds the whole amount.
/// When it commits, the source loses exactly the amount, the author gains
/// exactly the author's share and the platform exactly the platform's, the
/// two shares add up to the amount, and the mints are unchanged.
pub proof fn lemma_commit_moves_exact_shares(ledger: Ledger, amount: u64)
    ensures
        commits(ledger, amount) <==> {
            &&& ledger.author.mint == ledger.source.mint
            &&& ledger.platform.mint == ledger.source.mint
            &&& ledger.source.balance >= amount
        },
        commits(ledger, amount) ==> {
            let after = settle(ledger, amount).1;
            &&& after.source.balance == ledger.source.balance - amount
            &&& after.author.balance == ledger.author.balance + author_share(amount as nat)
            &&& after.platform.balance == ledger.platform.balance + platform_share(amount as nat)
            &&& author_share(amount as nat) + platform_share(amount as nat) == amount
            &&& after.source.mint == ledger.source.mint
            &&& after.author.mint == ledger.author.mint
            &&& after.platform.mint == ledger.platform.mint
        },
{
    lemma_shares_sum_to_amount(amount as nat);
    let s0 = started(amount);
    let a0 = first_action(s0);
    reveal_with_fuel(run, 4);
    if ledger.accepts(Recipient::Author, author_share(amount as nat)) {
        let l1 = ledger.transfer(Recipient::Author, author_share(amount as nat));
        let n1 = step(s0, TransferOutcome::Succeeded);
        assert(n1.1 == Action::Transfer {
            recipient: Recipient::Platform,
            amount: platform_share(amount as nat) as u64,
        });
    }
}

/// A settlement that does not commit leaves all three accounts exactly as
/// they were, and ends aborted with the error of the transfer that was
/// refused: the author's when the first transfer fails, the platform's
/// when the second does.
pub proof fn lemma_abort_leaves_ledger_unchanged(ledger: Ledger, amount: u64)
    ensures
        !commits(ledger, amount) ==> settle(ledger, amount).1 == ledger,
        !ledger.accepts(Recipient::Author, author_share(amount as nat)) ==>
            settle(ledger, amount).0.stage == Stage::Aborted(
                crate::split::SplitError::AuthorTransferFailed,
            ),
        ledger.accepts(Recipient::Author, author_share(amount as nat)) && !commits(ledger, amount)
            ==> settle(ledger, amount).0.stage == Stage::Aborted(
                crate::split::SplitError::PlatformTransferFailed,
            ),
{
    lemma_shares_sum_to_amount(amount as nat);
    reveal_with_fuel(run, 4);
}

/// Two settlements of `a` and `b`, drawn from two different sources and
/// paid to the same author and platform accounts, leave those accounts as
/// one settlement of `a + b` does, whenever the author's share of `a + b`
/// is the sum of the author's shares of `a` and `b`.
pub proof fn lemma_split_additivity(first: Ledger, second: Ledger, joint: Ledger, a: u64, b: u64)
    requires
        a + b <= u64::MAX,
        author_share(a as nat) + author_share(b as nat) == author_share((a + b) as nat),
        commits(first, a),
        second.author == settle(first, a).1.author,
        second.platform == settle(first, a).1.platform,
        commits(second, b),
        joint.author == first.author,
        joint.platform == first.platform,
        commits(joint, (a + b) as u64),
    ensures
        settle(second, b).1.author == settle(joint, (a + b) as u64).1.author,
        settle(second, b).1.platform == settle(joint, (a + b) as u64).1.platform,
{
    lemma_commit_moves_exact_shares(first, a);
    lemma_commit_moves_exact_shares(second, b);
    lemma_commit_moves_exact_shares(joint, (a + b) as u64);
}

} // verus!
