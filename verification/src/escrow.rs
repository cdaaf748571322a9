//! Campaign-scoped escrow custody.
//!
//! Funds for a campaign are held in a dedicated custody record whose
//! transfer authority belongs to the system itself, derived from the
//! campaign's identifier, rather than to any individual identity. The
//! physical movement of tokens is performed by the surrounding transfer
//! collaborator; this record is the ledger's view of the escrowed balance.

use vstd::prelude::*;

use crate::errors::ErrorCode;

verus! {

/// The escrowed balance held for one campaign.
#[derive(Clone, Copy, Debug, PartialEq, Eq, Structural)]
pub struct Escrow {
    /// The campaign this custody record belongs to; the binding is fixed
    /// at creation and authorizes system-side transfers for that campaign
    /// alone.
    pub campaign_id: u64,
    /// Balance currently held for the campaign.
    pub balance: u64,
}

impl Escrow {
    /// Opens the escrow for a campaign with an initial deposit (the
    /// matching pool moved in at campaign creation).
    pub fn open(campaign_id: u64, initial_deposit: u64) -> (escrow: Escrow)
        ensures
            escrow.campaign_id == campaign_id,
            escrow.balance == initial_deposit,
    {
        Escrow { campaign_id, balance: initial_deposit }
    }

    /// Credits an incoming transfer. Overflow of the balance is a fatal
    /// error with the escrow left untouched.
    pub fn credit(&mut self, amount: u64) -> (r: Result<(), ErrorCode>)
        ensures
            old(self).balance + amount > u64::MAX ==> r == Err::<(), ErrorCode>(
                ErrorCode::ArithmeticOverflow,
            ) && *final(self) == *old(self),
            old(self).balance + amount <= u64::MAX ==> r == Ok::<(), ErrorCode>(())
                && final(self).balance == old(self).balance + amount,
            final(self).campaign_id == old(self).campaign_id,
    {
        match self.balance.checked_add(amount) {
            Some(next) => {
                self.balance = next;
                Ok(())
            },
            None => Err(ErrorCode::ArithmeticOverflow),
        }
    }

    /// Releases the whole balance, leaving the escrow drained. Returns the
    /// amount released.
    pub fn drain(&mut self) -> (released: u64)
        ensures
            released == old(self).balance,
            final(self).balance == 0,
            final(self).campaign_id == old(self).campaign_id,
    {
        let released = self.balance;
        self.balance = 0;
        released
    }
}

} // verus!
