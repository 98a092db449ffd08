use vstd::prelude::*;

use crate::address::Address;

verus! {

/// A depositor's ledger within one index: `mint_amount[i]` is the cumulative
/// quantity of the index's target asset `i` booked for `owner`.
#[derive(Clone, Debug)]
pub struct IndexProfile {
    pub owner: Address,
    pub mint_amount: Vec<u64>,
    pub bump: u8,
}

/// Bytes of a profile record besides its amounts: selector, owner, length
/// prefix and bump.
pub const INDEX_PROFILE_INIT_SPACE: usize = 8 + 32 + 4 + 1;

/// Bytes of one booked amount.
pub const AMOUNT_LEN: usize = 8;

impl IndexProfile {
    /// Storage for a profile of an index with `n` target assets, or `None`
    /// when that size is not representable.
    pub fn space(n: usize) -> (r: Option<usize>)
        ensures
            r matches Some(s) ==> s == INDEX_PROFILE_INIT_SPACE + AMOUNT_LEN * n,
            r is None <==> INDEX_PROFILE_INIT_SPACE + AMOUNT_LEN * n > usize::MAX,
    {
        match AMOUNT_LEN.checked_mul(n) {
            Some(l) => INDEX_PROFILE_INIT_SPACE.checked_add(l),
            None => None,
        }
    }
}

/// The profile record at a depositor's derived address: absent until the
/// first finalize, then present.
#[derive(Clone, Debug)]
pub enum ProfileState {
    NotFound,
    Found(IndexProfile),
}

/// A ledger of `n` slots, all zero.
pub open spec fn zero_ledger(n: nat) -> Seq<u64> {
    Seq::new(n, |i: int| 0u64)
}

/// The ledger after booking `amount` in slot `pos`, or `None` when that slot
/// would overflow.
pub open spec fn credit(ledger: Seq<u64>, pos: int, amount: u64) -> Option<Seq<u64>> {
    if ledger[pos] + amount > u64::MAX {
        None
    } else {
        Some(ledger.update(pos, (ledger[pos] + amount) as u64))
    }
}

/// The ledger after booking each of `amounts` in slot `pos` in turn, or
/// `None` when one of the bookings overflows.
pub open spec fn credit_all(ledger: Seq<u64>, pos: int, amounts: Seq<u64>) -> Option<Seq<u64>>
    decreases amounts.len(),
{
    if amounts.len() == 0 {
        Some(ledger)
    } else {
        match credit_all(ledger, pos, amounts.drop_last()) {
            None => None,
            Some(l) => credit(l, pos, amounts.last()),
        }
    }
}

/// The sum of `amounts`.
pub open spec fn total(amounts: Seq<u64>) -> int
    decreases amounts.len(),
{
    if amounts.len() == 0 {
        0
    } else {
        total(amounts.drop_last()) + amounts.last()
    }
}

proof fn lemma_total_nonnegative(amounts: Seq<u64>)
    ensures
        total(amounts) >= 0,
    decreases amounts.len(),
{
    if amounts.len() > 0 {
        lemma_total_nonnegative(amounts.drop_last());
    }
}

/// Booking accumulates: booking `amounts` one after another in slot `pos`
/// succeeds exactly when the slot's start value plus their sum fits, and then
/// leaves that sum added to the slot and every other slot as it was. So the
/// first booking that would pass the largest representable value is the one
/// that fails.
pub proof fn lemma_finalize_accumulates(ledger: Seq<u64>, pos: int, amounts: Seq<u64>)
    requires
        0 <= pos < ledger.len(),
    ensures
        credit_all(ledger, pos, amounts) is Some <==> ledger[pos] + total(amounts) <= u64::MAX,
        credit_all(ledger, pos, amounts) matches Some(l) ==> l.len() == ledger.len() && l[pos]
            == ledger[pos] + total(amounts) && forall|j: int|
            0 <= j < ledger.len() && j != pos ==> l[j] == ledger[j],
    decreases amounts.len(),
{
    if amounts.len() > 0 {
        lemma_finalize_accumulates(ledger, pos, amounts.drop_last());
        lemma_total_nonnegative(amounts.drop_last());
    }
}

} // verus!
