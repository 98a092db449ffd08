use vstd::prelude::*;

use crate::address::Address;
use crate::error::NoviError;

verus! {

/// A deposit escrow: one per depositor and sequence number. `mint_list[i]`
/// says whether the share destined for the index's target asset `i` has
/// already been released for swapping.
#[derive(Clone, Debug)]
pub struct DepositAccount {
    pub owner: Address,
    pub amount: u64,
    pub mint_list: Vec<bool>,
    pub seed: u64,
    pub bump: u8,
}

/// Bytes of an escrow record before its flag list: selector, owner, amount,
/// list length, sequence number and bump.
pub const DEPOSIT_ACCOUNT_INIT_SPACE: usize = 8 + 32 + 8 + 4 + 8 + 1;

/// What a withdrawal of `amount` from an escrow holding `total` split over
/// `n` target assets comes to.
pub open spec fn withdraw_verdict(total: u64, n: nat, amount: u64) -> Result<(), NoviError> {
    if n == 0 {
        Err(NoviError::Overflow)
    } else if amount == total as nat / n {
        Ok(())
    } else {
        Err(NoviError::AmountMismatch)
    }
}

impl DepositAccount {
    /// Storage for an escrow of an index with `n` target assets, or `None`
    /// when that size is not representable.
    pub fn space(n: usize) -> (r: Option<usize>)
        ensures
            r matches Some(s) ==> s == DEPOSIT_ACCOUNT_INIT_SPACE + n,
            r is None <==> DEPOSIT_ACCOUNT_INIT_SPACE + n > usize::MAX,
    {
        DEPOSIT_ACCOUNT_INIT_SPACE.checked_add(n)
    }

    pub fn initialize(&mut self, owner: Address, amount: u64, mint: Vec<bool>, seed: u64, bump: u8)
        ensures
            final(self).owner == owner,
            final(self).amount == amount,
            final(self).mint_list@ == mint@,
            final(self).seed == seed,
            final(self).bump == bump,
    {
        self.owner = owner;
        self.amount = amount;
        self.mint_list = mint;
        self.seed = seed;
        self.bump = bump;
    }

    /// Accepts a transfer into custody only of exactly the recorded amount.
    pub fn deposit(&self, amount: u64) -> (r: Result<(), NoviError>)
        ensures
            r is Ok <==> amount == self.amount,
            r is Err ==> r == Err::<(), NoviError>(NoviError::AmountMismatch),
    {
        if amount != self.amount {
            return Err(NoviError::AmountMismatch);
        }
        Ok(())
    }

    /// Accepts a release from custody only of exactly the escrow's equal share
    /// per target asset (integer division); an escrow with no target asset
    /// has no share.
    pub fn withdraw(&self, amount: u64) -> (r: Result<(), NoviError>)
        ensures
            r == withdraw_verdict(self.amount, self.mint_list@.len(), amount),
            r is Ok <==> (self.mint_list@.len() > 0 && amount == self.amount as nat
                / self.mint_list@.len()),
    {
        let n = self.mint_list.len() as u64;
        let share = match self.amount.checked_div(n) {
            Some(share) => share,
            None => return Err(NoviError::Overflow),
        };
        if amount != share {
            return Err(NoviError::AmountMismatch);
        }
        Ok(())
    }

    /// The lamport balances `(escrow, payer)` after an emptied escrow hands
    /// all of its lamports back to the payer.
    pub fn close(deposit_lamports: u64, payer_lamports: u64) -> (r: Result<(u64, u64), NoviError>)
        ensures
            r matches Ok((d, p)) ==> d == 0 && p == payer_lamports + deposit_lamports,
            r is Err <==> payer_lamports + deposit_lamports > u64::MAX,
            r is Err ==> r == Err::<(u64, u64), NoviError>(NoviError::Overflow),
    {
        match payer_lamports.checked_add(deposit_lamports) {
            Some(p) => Ok((0, p)),
            None => Err(NoviError::Overflow),
        }
    }
}

} // verus!
