use vstd::prelude::*;

use crate::address::Address;
use crate::error::NoviError;
use crate::index::{resolve_position, IndexAccount};
use crate::index_profile::{
    credit, credit_all, lemma_finalize_accumulates, total, zero_ledger, IndexProfile, ProfileState,
};

verus! {

/// A finalize: the depositor to credit, the index, the profile record found
/// at the depositor's derived address, and the target asset received.
#[derive(Clone, Debug)]
pub struct Finalize {
    pub owner: Address,
    pub index: IndexAccount,
    pub index_profile: ProfileState,
    pub mint: Address,
}

impl Finalize {
    /// An existing profile has one slot per target asset of the index.
    pub open spec fn wf(self) -> bool {
        match self.index_profile {
            ProfileState::Found(p) => p.mint_amount@.len() == self.index.mint_list@.len(),
            ProfileState::NotFound => true,
        }
    }

    /// The depositor's ledger before this finalize: the stored one, or all
    /// zeros when there is no profile yet.
    pub open spec fn ledger_before(self) -> Seq<u64> {
        match self.index_profile {
            ProfileState::Found(p) => p.mint_amount@,
            ProfileState::NotFound => zero_ledger(self.index.mint_list@.len()),
        }
    }

    /// The depositor's ledger after booking `amount` of the target asset, or
    /// why the booking is refused.
    pub open spec fn ledger_after(self, amount: u64) -> Result<Seq<u64>, NoviError> {
        match resolve_position(self.index.mint_list@, self.mint) {
            Err(e) => Err(e),
            Ok(pos) => match credit(self.ledger_before(), pos as int, amount) {
                None => Err(NoviError::Overflow),
                Some(l) => Ok(l),
            },
        }
    }

    /// The owner the profile has after a finalize: the stored one, or the
    /// depositor when the profile is created.
    pub open spec fn profile_owner(self) -> Address {
        match self.index_profile {
            ProfileState::Found(p) => p.owner,
            ProfileState::NotFound => self.owner,
        }
    }

    /// The bump the profile has after a finalize given `bump`.
    pub open spec fn profile_bump(self, bump: u8) -> u8 {
        match self.index_profile {
            ProfileState::Found(p) => p.bump,
            ProfileState::NotFound => bump,
        }
    }

    /// Books `amount` of the received target asset in the depositor's
    /// profile, creating the profile (owner set, all slots zero) on first
    /// use. On failure nothing changes.
    pub fn finalize(&mut self, amount: u64, bump: u8) -> (r: Result<(), NoviError>)
        requires
            old(self).wf(),
        ensures
            r is Ok <==> old(self).ledger_after(amount) is Ok,
            old(self).ledger_after(amount) matches Err(e) ==> r == Err::<(), NoviError>(e),
            r is Ok ==> (final(self).index_profile matches ProfileState::Found(p)
                && Ok::<Seq<u64>, NoviError>(p.mint_amount@) == old(self).ledger_after(amount)
                && p.owner == old(self).profile_owner() && p.bump == old(self).profile_bump(bump)),
            r is Ok ==> final(self).owner == old(self).owner && final(self).index == old(self).index
                && final(self).mint == old(self).mint,
            r is Err ==> *final(self) == *old(self),
            final(self).wf(),
    {
        let pos = match self.index.check_address(self.mint) {
            Ok(pos) => pos,
            Err(e) => return Err(e),
        };
        let mut taken = ProfileState::NotFound;
        core::mem::swap(&mut taken, &mut self.index_profile);
        let profile = match taken {
            ProfileState::Found(mut p) => {
                let booked = match p.mint_amount[pos].checked_add(amount) {
                    Some(b) => b,
                    None => {
                        self.index_profile = ProfileState::Found(p);
                        return Err(NoviError::Overflow);
                    },
                };
                p.mint_amount.set(pos, booked);
                p
            },
            ProfileState::NotFound => {
                let n = self.index.mint_list.len();
                let mut ledger: Vec<u64> = Vec::new();
                let mut i: usize = 0;
                while i < n
                    invariant
                        0 <= i <= n,
                        n == self.index.mint_list@.len(),
                        ledger@ == zero_ledger(i as nat),
                    decreases n - i,
                {
                    ledger.push(0);
                    i = i + 1;
                    assert(ledger@ =~= zero_ledger(i as nat));
                }
                ledger.set(pos, amount);
                IndexProfile { owner: self.owner, mint_amount: ledger, bump }
            },
        };
        self.index_profile = ProfileState::Found(profile);
        Ok(())
    }
}

} // verus!

verus! {

/// Call `i` of a run: `states[i + 1]` is what a successful finalize of
/// `amounts[i]` left from `states[i]`, on the run's index and asset.
pub open spec fn run_step(states: Seq<Finalize>, amounts: Seq<u64>, i: int) -> bool {
    &&& states[i + 1].index == states[0].index
    &&& states[i + 1].mint == states[0].mint
    &&& states[i + 1].index_profile matches ProfileState::Found(p)
    &&& Ok::<Seq<u64>, NoviError>(p.mint_amount@) == states[i].ledger_after(amounts[i])
}

/// `states` is a run of successful finalize calls: each state is the one the
/// previous call left, for `amounts` in turn, on the same index and asset.
pub open spec fn is_finalize_run(states: Seq<Finalize>, amounts: Seq<u64>) -> bool {
    &&& states.len() == amounts.len() + 1
    &&& forall|i: int| 0 <= i < amounts.len() ==> #[trigger] run_step(states, amounts, i)
}

proof fn lemma_run_prefix(states: Seq<Finalize>, amounts: Seq<u64>, k: int)
    requires
        is_finalize_run(states, amounts),
        0 <= k <= amounts.len(),
        resolve_position(states[0].index.mint_list@, states[0].mint) is Ok,
    ensures
        credit_all(
            states[0].ledger_before(),
            resolve_position(states[0].index.mint_list@, states[0].mint)->Ok_0 as int,
            amounts.subrange(0, k),
        ) == Some(states[k].ledger_before()),
    decreases k,
{
    let pos = resolve_position(states[0].index.mint_list@, states[0].mint)->Ok_0 as int;
    if k == 0 {
        assert(amounts.subrange(0, 0).len() == 0);
    } else {
        lemma_run_prefix(states, amounts, k - 1);
        assert(amounts.subrange(0, k).drop_last() =~= amounts.subrange(0, k - 1));
        assert(run_step(states, amounts, k - 1));
        if k - 1 > 0 {
            assert(run_step(states, amounts, k - 2));
        }
    }
}

/// Finalize accumulates: after a run of successful finalize calls with
/// `amounts` for the same index, depositor and asset, starting with no
/// profile, the asset's slot holds the sum of `amounts` and every other slot
/// holds zero.
pub proof fn lemma_finalize_calls_accumulate(states: Seq<Finalize>, amounts: Seq<u64>)
    requires
        is_finalize_run(states, amounts),
        states[0].index_profile is NotFound,
        resolve_position(states[0].index.mint_list@, states[0].mint) is Ok,
    ensures
        ({
            let pos = resolve_position(states[0].index.mint_list@, states[0].mint)->Ok_0 as int;
            let last = states[amounts.len() as int].ledger_before();
            &&& last.len() == states[0].index.mint_list@.len()
            &&& last[pos] == total(amounts)
            &&& forall|j: int| 0 <= j < last.len() && j != pos ==> last[j] == 0
        }),
{
    let n = states[0].index.mint_list@.len();
    let pos = resolve_position(states[0].index.mint_list@, states[0].mint)->Ok_0 as int;
    states[0].index.mint_list@.index_of_first_ensures(states[0].mint);
    lemma_run_prefix(states, amounts, amounts.len() as int);
    assert(amounts.subrange(0, amounts.len() as int) =~= amounts);
    lemma_finalize_accumulates(zero_ledger(n), pos, amounts);
}

} // verus!
