use vstd::prelude::*;

use crate::address::Address;
use crate::config::ProtocolConfig;
use crate::deposit_account::DepositAccount;
use crate::error::NoviError;
use crate::index::IndexAccount;
use crate::threshold::{check_threshold, threshold_verdict};

verus! {

/// A deposit: the depositor, the deposited asset with its precision factor,
/// the index the deposit is for, and the fresh escrow record to fill.
#[derive(Clone, Debug)]
pub struct Deposit {
    pub user: Address,
    pub mint: Address,
    pub mint_decimals: u8,
    pub index: IndexAccount,
    pub deposit: DepositAccount,
}

/// The quantity moved into custody for a deposit of `amount`, or why the
/// deposit is refused.
pub open spec fn deposit_verdict(config: ProtocolConfig, mint: Address, decimals: u8, amount: u64) -> Result<
    u64,
    NoviError,
> {
    match threshold_verdict(config, mint, amount) {
        Err(e) => Err(e),
        Ok(_) => if amount * decimals > u64::MAX {
            Err(NoviError::Overflow)
        } else {
            Ok((amount * decimals) as u64)
        },
    }
}

impl Deposit {
    /// Opens the escrow for a deposit of `amount` under sequence number
    /// `seed`: the threshold policy must accept it, and the escrow records
    /// the depositor, the amount and one cleared flag per target asset of the
    /// index. Returns the quantity, scaled by the asset's precision factor, to
    /// move into the escrow's custody. On failure nothing changes.
    pub fn deposit(&mut self, config: &ProtocolConfig, seed: u64, amount: u64, bump: u8) -> (r:
        Result<u64, NoviError>)
        ensures
            r == deposit_verdict(*config, old(self).mint, old(self).mint_decimals, amount),
            r is Ok ==> final(self).deposit.owner == old(self).user
                && final(self).deposit.amount == amount
                && final(self).deposit.mint_list@ == Seq::new(
                old(self).index.mint_list@.len(),
                |i: int| false,
            )
                && final(self).deposit.seed == seed
                && final(self).deposit.bump == bump
                && final(self).user == old(self).user
                && final(self).mint == old(self).mint
                && final(self).mint_decimals == old(self).mint_decimals
                && final(self).index == old(self).index,
            r is Err ==> *final(self) == *old(self),
    {
        match check_threshold(config, self.mint, amount) {
            Ok(_) => {},
            Err(e) => return Err(e),
        }
        let scaled = match amount.checked_mul(self.mint_decimals as u64) {
            Some(s) => s,
            None => return Err(NoviError::Overflow),
        };
        let n = self.index.mint_list.len();
        let mut flags: Vec<bool> = Vec::new();
        let mut i: usize = 0;
        while i < n
            invariant
                0 <= i <= n,
                n == self.index.mint_list@.len(),
                flags@ == Seq::new(i as nat, |j: int| false),
            decreases n - i,
        {
            flags.push(false);
            i = i + 1;
            assert(flags@ =~= Seq::new(i as nat, |j: int| false));
        }
        self.deposit.initialize(self.user, amount, flags, seed, bump);
        Ok(scaled)
    }
}

} // verus!
