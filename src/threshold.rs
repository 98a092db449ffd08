use vstd::prelude::*;

use crate::address::Address;
use crate::config::ProtocolConfig;
use crate::error::NoviError;

verus! {

pub const MIN_SOL_THRESHOLD: u64 = 0;

pub const MAX_SOL_THRESHOLD: u64 = 1_000_000_000_000_000;

pub const MIN_USD_THRESHOLD: u64 = 0;

pub const MAX_USD_THRESHOLD: u64 = 1_000_000_000_000_000;

/// The inclusive deposit window of a source asset, if it is accepted.
pub open spec fn window_of(config: ProtocolConfig, mint: Address) -> Option<(u64, u64)> {
    if mint == config.wsol {
        Some((MIN_SOL_THRESHOLD, MAX_SOL_THRESHOLD))
    } else if mint == config.usdc || mint == config.usdt {
        Some((MIN_USD_THRESHOLD, MAX_USD_THRESHOLD))
    } else {
        None
    }
}

/// What the threshold policy says of depositing `amount` of `mint`.
pub open spec fn threshold_verdict(config: ProtocolConfig, mint: Address, amount: u64) -> Result<
    (),
    NoviError,
> {
    match window_of(config, mint) {
        None => Err(NoviError::InvalidMint),
        Some((lo, hi)) => if amount < lo {
            Err(NoviError::MinThreshold)
        } else if amount > hi {
            Err(NoviError::MaxThreshold)
        } else {
            Ok(())
        },
    }
}

/// Accepts a deposit of `amount` of `mint` only when the asset is accepted and
/// the amount lies inside its inclusive window.
pub fn check_threshold(config: &ProtocolConfig, mint: Address, amount: u64) -> (r: Result<
    (),
    NoviError,
>)
    ensures
        r == threshold_verdict(*config, mint, amount),
        r is Ok <==> (window_of(*config, mint) matches Some((lo, hi)) && lo <= amount <= hi),
        window_of(*config, mint) is None ==> r == Err::<(), NoviError>(NoviError::InvalidMint),
{
    let (lo, hi) = if mint == config.wsol {
        (MIN_SOL_THRESHOLD, MAX_SOL_THRESHOLD)
    } else if mint == config.usdc || mint == config.usdt {
        (MIN_USD_THRESHOLD, MAX_USD_THRESHOLD)
    } else {
        return Err(NoviError::InvalidMint);
    };
    if amount < lo {
        return Err(NoviError::MinThreshold);
    }
    if amount > hi {
        return Err(NoviError::MaxThreshold);
    }
    Ok(())
}

} // verus!
