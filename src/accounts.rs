//! The accounts that take part in a settlement, and which of them each
//! transfer moves tokens between.
use vstd::prelude::*;

verus! {

/// The two accounts a payment is paid out to.
#[derive(Clone, Copy, Debug, PartialEq, Eq, Structural)]
pub enum Recipient {
    Author,
    Platform,
}

/// The account bundle of a settlement, one handle per role.
///
/// `A` is the host's handle on an account. The payer signs and is the
/// spending authority on its token account; the three token accounts are
/// writable; the token program is read only.
pub struct SplitFunds<A> {
    pub payer: A,
    pub payer_token_account: A,
    pub author_token_account: A,
    pub platform_token_account: A,
    pub token_program: A,
}

/// The accounts of one transfer: the program that runs it, the account
/// debited, the account credited and the authority over the debited one.
pub struct TransferContext<'a, A> {
    pub program: &'a A,
    pub from: &'a A,
    pub to: &'a A,
    pub authority: &'a A,
}

impl<A> SplitFunds<A> {
    /// The transfer from the payer's token account to the author's.
    pub fn into_transfer_to_author_context(&self) -> (r: TransferContext<'_, A>)
        ensures
            *r.program == self.token_program,
            *r.from == self.payer_token_account,
            *r.to == self.author_token_account,
            *r.authority == self.payer,
    {
        TransferContext {
            program: &self.token_program,
            from: &self.payer_token_account,
            to: &self.author_token_account,
            authority: &self.payer,
        }
    }

    /// The transfer from the payer's token account to the platform's.
    pub fn into_transfer_to_platform_context(&self) -> (r: TransferContext<'_, A>)
        ensures
            *r.program == self.token_program,
            *r.from == self.payer_token_account,
            *r.to == self.platform_token_account,
            *r.authority == self.payer,
    {
        TransferContext {
            program: &self.token_program,
            from: &self.payer_token_account,
            to: &self.platform_token_account,
            authority: &self.payer,
        }
    }

    /// The transfer that pays `recipient`.
    pub fn transfer_context(&self, recipient: Recipient) -> (r: TransferContext<'_, A>)
        ensures
            *r.program == self.token_program,
            *r.from == self.payer_token_account,
            *r.to == match recipient {
                Recipient::Author => self.author_token_account,
                Recipient::Platform => self.platform_token_account,
            },
            *r.authority == self.payer,
    {
        match recipient {
            Recipient::Author => self.into_transfer_to_author_context(),
            Recipient::Platform => self.into_transfer_to_platform_context(),
        }
    }
}

} // verus!
