use vstd::prelude::*;

use crate::address::Address;
use crate::config::ProtocolConfig;
use crate::deposit_account::{withdraw_verdict, DepositAccount};
use crate::error::NoviError;
use crate::index::{resolve_position, IndexAccount};
use crate::transaction::{
    account_is, decode_finalize_amount, decode_route_args, finalize_amount_of, route_args_of,
    targets, TransactionContext, TRANSACTION_LEVEL_STACK_HEIGHT,
};
use crate::bytes::has_selector;

verus! {

/// The only slippage bound, in basis points, a bundled route may carry.
pub const REQUIRED_SLIPPAGE_BPS: u16 = 50;

/// Position of the source asset among the route instruction's accounts.
pub const ROUTE_SOURCE_MINT_POSITION: usize = 7;

/// Position of the destination asset among the route instruction's accounts.
pub const ROUTE_DESTINATION_MINT_POSITION: usize = 8;

/// Position of the depositor among the finalize instruction's accounts.
pub const FINALIZE_OWNER_POSITION: usize = 1;

/// Position of the target asset among the finalize instruction's accounts.
pub const FINALIZE_MINT_POSITION: usize = 5;

/// Everything a swap authorization reads: the escrow, its index, the escrow's
/// source asset, the requested target asset with its precision factor, and
/// the escrow's custody balance before the release.
#[derive(Clone, Debug)]
pub struct InitializeSwap {
    pub deposit: DepositAccount,
    pub index: IndexAccount,
    pub usdc: Address,
    pub mint: Address,
    pub mint_decimals: u8,
    pub deposit_token_amount: u64,
}

/// What an authorized swap asks of the runtime: release `amount` from the
/// escrow's custody to the swap executor, close the escrow when
/// `close_deposit` holds, and expect `quoted_out_amount` at finalize.
#[derive(Clone, Copy, Debug, PartialEq, Eq, Structural)]
pub struct SwapRelease {
    pub amount: u64,
    pub close_deposit: bool,
    pub quoted_out_amount: u64,
}

/// What the instruction right after the authorization says: the finalize
/// amount it commits to, or why it is refused.
pub open spec fn route_verdict(
    config: ProtocolConfig,
    ctx: TransactionContext,
    amount: u64,
    source: Address,
    target: Address,
    decimals: u8,
) -> Result<u64, NoviError> {
    match ctx.instruction_at(ctx.current_index + 1) {
        None => Err(NoviError::MissingSwapIx),
        Some(ix) => if !(ix.program_id == config.aggregator_program && has_selector(
            ix.data@,
            config.route_selector@,
        )) {
            Err(NoviError::InvalidSwapIx)
        } else {
            match route_args_of(ix.data@, config.route_step_payload_lens@) {
                None => Err(NoviError::InvalidSwapIx),
                Some(args) => if args.slippage_bps != REQUIRED_SLIPPAGE_BPS {
                    Err(NoviError::InvalidSlippage)
                } else if args.in_amount != amount {
                    Err(NoviError::InvalidAmount)
                } else if !(ix.accounts@.len() > ROUTE_SOURCE_MINT_POSITION
                    && ix.accounts@[ROUTE_SOURCE_MINT_POSITION as int] == source) {
                    Err(NoviError::InvalidFromMint)
                } else if !(ix.accounts@.len() > ROUTE_DESTINATION_MINT_POSITION
                    && ix.accounts@[ROUTE_DESTINATION_MINT_POSITION as int] == target) {
                    Err(NoviError::InvalidToMint)
                } else if args.quoted_out_amount * decimals > u64::MAX {
                    Err(NoviError::Overflow)
                } else {
                    Ok((args.quoted_out_amount * decimals) as u64)
                },
            }
        },
    }
}

/// What the instruction two places after the authorization says: whether it
/// is this program's finalize for exactly `quoted` of `target`, credited to
/// `owner`.
pub open spec fn finalize_verdict(
    config: ProtocolConfig,
    ctx: TransactionContext,
    quoted: u64,
    owner: Address,
    target: Address,
) -> Result<(), NoviError> {
    match ctx.instruction_at(ctx.current_index + 2) {
        None => Err(NoviError::MissingFinalizeIx),
        Some(ix) => if !(ix.program_id == config.program_id && has_selector(
            ix.data@,
            config.finalize_selector@,
        )) {
            Err(NoviError::InvalidFinalizeIx)
        } else {
            match finalize_amount_of(ix.data@) {
                None => Err(NoviError::InvalidFinalizeIx),
                Some(a) => if a != quoted {
                    Err(NoviError::InvalidFinalizeAmount)
                } else if !(ix.accounts@.len() > FINALIZE_OWNER_POSITION
                    && ix.accounts@[FINALIZE_OWNER_POSITION as int] == owner) {
                    Err(NoviError::InvalidFinalizeOwner)
                } else if !(ix.accounts@.len() > FINALIZE_MINT_POSITION
                    && ix.accounts@[FINALIZE_MINT_POSITION as int] == target) {
                    Err(NoviError::InvalidFinalizeMint)
                } else {
                    Ok(())
                },
            }
        },
    }
}

impl InitializeSwap {
    /// The escrow has one flag per target asset of its index.
    pub open spec fn wf(self) -> bool {
        self.deposit.mint_list@.len() == self.index.mint_list@.len()
    }

    /// The outcome of authorizing a release of `amount` from the escrow,
    /// checked in this order: the target asset is in the index, its share is
    /// not yet swapped, `amount` is exactly the share, custody holds it, the
    /// call is not nested, then the two bundled instructions.
    pub open spec fn swap_verdict(
        self,
        config: ProtocolConfig,
        ctx: TransactionContext,
        amount: u64,
    ) -> Result<SwapRelease, NoviError> {
        match resolve_position(self.index.mint_list@, self.mint) {
            Err(e) => Err(e),
            Ok(pos) => if self.deposit.mint_list@[pos as int] {
                Err(NoviError::AlreadySwapped)
            } else {
                match withdraw_verdict(self.deposit.amount, self.deposit.mint_list@.len(), amount) {
                    Err(e) => Err(e),
                    Ok(_) => if amount > self.deposit_token_amount {
                        Err(NoviError::Underflow)
                    } else if ctx.stack_height != TRANSACTION_LEVEL_STACK_HEIGHT {
                        Err(NoviError::CpiDisabled)
                    } else {
                        match route_verdict(
                            config,
                            ctx,
                            amount,
                            self.usdc,
                            self.mint,
                            self.mint_decimals,
                        ) {
                            Err(e) => Err(e),
                            Ok(quoted) => match finalize_verdict(
                                config,
                                ctx,
                                quoted,
                                self.deposit.owner,
                                self.mint,
                            ) {
                                Err(e) => Err(e),
                                Ok(_) => Ok(
                                    SwapRelease {
                                        amount,
                                        close_deposit: amount == self.deposit_token_amount,
                                        quoted_out_amount: quoted,
                                    },
                                ),
                            },
                        }
                    },
                }
            },
        }
    }

    /// The escrow's flags once the share of the requested asset is released.
    pub open spec fn flags_after_swap(self) -> Seq<bool> {
        match resolve_position(self.index.mint_list@, self.mint) {
            Ok(pos) => self.deposit.mint_list@.update(pos as int, true),
            Err(_) => self.deposit.mint_list@,
        }
    }

    /// Checks the bundled route and returns the amount finalize must book.
    fn check_route(&self, config: &ProtocolConfig, ctx: &TransactionContext, amount: u64) -> (r:
        Result<u64, NoviError>)
        ensures
            r == route_verdict(*config, *ctx, amount, self.usdc, self.mint, self.mint_decimals),
    {
        let ix = match ctx.instruction_after(1) {
            Some(ix) => ix,
            None => return Err(NoviError::MissingSwapIx),
        };
        if !targets(ix, config.aggregator_program, &config.route_selector) {
            return Err(NoviError::InvalidSwapIx);
        }
        let args = match decode_route_args(&ix.data, &config.route_step_payload_lens) {
            Some(args) => args,
            None => return Err(NoviError::InvalidSwapIx),
        };
        if args.slippage_bps != REQUIRED_SLIPPAGE_BPS {
            return Err(NoviError::InvalidSlippage);
        }
        if args.in_amount != amount {
            return Err(NoviError::InvalidAmount);
        }
        if !account_is(ix, ROUTE_SOURCE_MINT_POSITION, self.usdc) {
            return Err(NoviError::InvalidFromMint);
        }
        if !account_is(ix, ROUTE_DESTINATION_MINT_POSITION, self.mint) {
            return Err(NoviError::InvalidToMint);
        }
        match args.quoted_out_amount.checked_mul(self.mint_decimals as u64) {
            Some(q) => Ok(q),
            None => Err(NoviError::Overflow),
        }
    }

    /// Checks the bundled finalize against the quoted amount.
    fn check_finalize(&self, config: &ProtocolConfig, ctx: &TransactionContext, quoted: u64) -> (r:
        Result<(), NoviError>)
        ensures
            r == finalize_verdict(*config, *ctx, quoted, self.deposit.owner, self.mint),
    {
        let ix = match ctx.instruction_after(2) {
            Some(ix) => ix,
            None => return Err(NoviError::MissingFinalizeIx),
        };
        if !targets(ix, config.program_id, &config.finalize_selector) {
            return Err(NoviError::InvalidFinalizeIx);
        }
        let a = match decode_finalize_amount(&ix.data) {
            Some(a) => a,
            None => return Err(NoviError::InvalidFinalizeIx),
        };
        if a != quoted {
            return Err(NoviError::InvalidFinalizeAmount);
        }
        if !account_is(ix, FINALIZE_OWNER_POSITION, self.deposit.owner) {
            return Err(NoviError::InvalidFinalizeOwner);
        }
        if !account_is(ix, FINALIZE_MINT_POSITION, self.mint) {
            return Err(NoviError::InvalidFinalizeMint);
        }
        Ok(())
    }

    /// Authorizes releasing `amount` of the escrow's share for the requested
    /// target asset, after proving from the transaction that the next
    /// instruction swaps exactly that share into that asset with the required
    /// slippage bound, and that the one after books exactly the quoted output
    /// for the depositor. On success the share is marked as swapped; on
    /// failure nothing changes.
    pub fn initialize_swap(
        &mut self,
        config: &ProtocolConfig,
        ctx: &TransactionContext,
        amount: u64,
    ) -> (r: Result<SwapRelease, NoviError>)
        requires
            old(self).wf(),
        ensures
            r == old(self).swap_verdict(*config, *ctx, amount),
            r is Ok ==> final(self).deposit.mint_list@ == old(self).flags_after_swap(),
            r is Ok ==> final(self).deposit.owner == old(self).deposit.owner
                && final(self).deposit.amount == old(self).deposit.amount
                && final(self).deposit.seed == old(self).deposit.seed
                && final(self).deposit.bump == old(self).deposit.bump
                && final(self).index == old(self).index
                && final(self).usdc == old(self).usdc
                && final(self).mint == old(self).mint
                && final(self).mint_decimals == old(self).mint_decimals
                && final(self).deposit_token_amount == old(self).deposit_token_amount,
            r is Err ==> *final(self) == *old(self),
            final(self).wf(),
    {
        let pos = match self.index.check_address(self.mint) {
            Ok(pos) => pos,
            Err(e) => return Err(e),
        };
        if self.deposit.mint_list[pos] {
            return Err(NoviError::AlreadySwapped);
        }
        match self.deposit.withdraw(amount) {
            Ok(_) => {},
            Err(e) => return Err(e),
        }
        let remaining = match self.deposit_token_amount.checked_sub(amount) {
            Some(rem) => rem,
            None => return Err(NoviError::Underflow),
        };
        if ctx.stack_height != TRANSACTION_LEVEL_STACK_HEIGHT {
            return Err(NoviError::CpiDisabled);
        }
        let quoted = match self.check_route(config, ctx, amount) {
            Ok(q) => q,
            Err(e) => return Err(e),
        };
        match self.check_finalize(config, ctx, quoted) {
            Ok(_) => {},
            Err(e) => return Err(e),
        }
        self.deposit.mint_list.set(pos, true);
        Ok(SwapRelease { amount, close_deposit: remaining == 0, quoted_out_amount: quoted })
    }
}

/// A share of an escrow is swapped at most once: once an authorization for
/// a target asset has succeeded, any later authorization on the resulting
/// escrow for the same asset fails with `AlreadySwapped`, whatever the
/// transaction and amount.
pub proof fn lemma_swap_at_most_once(
    first: InitializeSwap,
    second: InitializeSwap,
    config: ProtocolConfig,
    ctx1: TransactionContext,
    ctx2: TransactionContext,
    amount1: u64,
    amount2: u64,
)
    requires
        first.wf(),
        first.swap_verdict(config, ctx1, amount1) is Ok,
        second.index.mint_list@ == first.index.mint_list@,
        second.mint == first.mint,
        second.deposit.mint_list@ == first.flags_after_swap(),
    ensures
        second.swap_verdict(config, ctx2, amount2) == Err::<SwapRelease, NoviError>(
            NoviError::AlreadySwapped,
        ),
{
    first.index.mint_list@.index_of_first_ensures(first.mint);
}

} // verus!

verus! {

impl InitializeSwap {
    /// The gates an authorization passes before it reads the transaction:
    /// the asset is in the index, its share is unswapped, `amount` is exactly
    /// the share, custody holds it, and the call is not nested.
    pub open spec fn escrow_gates_pass(self, ctx: TransactionContext, amount: u64) -> bool {
        &&& resolve_position(self.index.mint_list@, self.mint) matches Ok(pos)
        &&& !self.deposit.mint_list@[pos as int]
        &&& withdraw_verdict(self.deposit.amount, self.deposit.mint_list@.len(), amount) is Ok
        &&& amount <= self.deposit_token_amount
        &&& ctx.stack_height == TRANSACTION_LEVEL_STACK_HEIGHT
    }
}

/// Binding to the bundled instructions. Once the escrow-side gates pass, an
/// authorization fails with `MissingSwapIx` when no instruction follows it;
/// with `InvalidSwapIx` when the next one targets another program or
/// selector; with `InvalidSlippage` unless the route's slippage bound is
/// exactly the required one; with `InvalidAmount` unless the route's input is
/// the released amount. Once the route is accepted, it fails with
/// `MissingFinalizeIx` when nothing follows the route; with
/// `InvalidFinalizeIx` when that instruction is not this program's finalize;
/// with `InvalidFinalizeAmount` unless the finalize books exactly the route's
/// quoted output times the target asset's precision factor.
pub proof fn lemma_bundle_binding(
    s: InitializeSwap,
    config: ProtocolConfig,
    ctx: TransactionContext,
    amount: u64,
)
    requires
        s.escrow_gates_pass(ctx, amount),
    ensures
        ctx.instruction_at(ctx.current_index + 1) is None ==> s.swap_verdict(config, ctx, amount)
            == Err::<SwapRelease, NoviError>(NoviError::MissingSwapIx),
        ctx.instruction_at(ctx.current_index + 1) matches Some(ix) ==> (!(ix.program_id
            == config.aggregator_program && has_selector(ix.data@, config.route_selector@))
            ==> s.swap_verdict(config, ctx, amount) == Err::<SwapRelease, NoviError>(
            NoviError::InvalidSwapIx,
        )),
        ctx.instruction_at(ctx.current_index + 1) matches Some(ix) ==> (ix.program_id
            == config.aggregator_program && has_selector(ix.data@, config.route_selector@)
            ==> (route_args_of(ix.data@, config.route_step_payload_lens@) matches Some(args) ==> (args.slippage_bps
            != REQUIRED_SLIPPAGE_BPS ==> s.swap_verdict(config, ctx, amount) == Err::<
            SwapRelease,
            NoviError,
        >(NoviError::InvalidSlippage)) && (args.slippage_bps == REQUIRED_SLIPPAGE_BPS
            && args.in_amount != amount ==> s.swap_verdict(config, ctx, amount) == Err::<
            SwapRelease,
            NoviError,
        >(NoviError::InvalidAmount)))),
        route_verdict(config, ctx, amount, s.usdc, s.mint, s.mint_decimals) matches Ok(quoted)
            ==> (ctx.instruction_at(ctx.current_index + 1) matches Some(ix) && route_args_of(
            ix.data@,
            config.route_step_payload_lens@,
        ) matches Some(args) && quoted == args.quoted_out_amount * s.mint_decimals),
        route_verdict(config, ctx, amount, s.usdc, s.mint, s.mint_decimals) is Ok
            ==> (ctx.instruction_at(ctx.current_index + 2) is None ==> s.swap_verdict(
            config,
            ctx,
            amount,
        ) == Err::<SwapRelease, NoviError>(NoviError::MissingFinalizeIx)),
        route_verdict(config, ctx, amount, s.usdc, s.mint, s.mint_decimals) is Ok
            ==> (ctx.instruction_at(ctx.current_index + 2) matches Some(f) ==> (!(f.program_id
            == config.program_id && has_selector(f.data@, config.finalize_selector@))
            ==> s.swap_verdict(config, ctx, amount) == Err::<SwapRelease, NoviError>(
            NoviError::InvalidFinalizeIx,
        ))),
        route_verdict(config, ctx, amount, s.usdc, s.mint, s.mint_decimals) matches Ok(quoted)
            ==> (ctx.instruction_at(ctx.current_index + 2) matches Some(f) ==> (f.program_id
            == config.program_id && has_selector(f.data@, config.finalize_selector@)
            ==> (finalize_amount_of(f.data@) matches Some(a) ==> (a != quoted ==> s.swap_verdict(
            config,
            ctx,
            amount,
        ) == Err::<SwapRelease, NoviError>(NoviError::InvalidFinalizeAmount))))),
{
}

} // verus!
