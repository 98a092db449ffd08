use vstd::prelude::*;

verus! {

/// Every way in which an instruction of the protocol can be refused.
#[derive(Clone, Copy, Debug, PartialEq, Eq, Structural)]
pub enum NoviError {
    /// A checked addition or multiplication would wrap.
    Overflow,
    /// A checked subtraction would wrap.
    Underflow,
    /// Someone other than the administrator tried to create an index.
    PrivilageEscalated,
    /// The deposit is above the window of its asset.
    MaxThreshold,
    /// The deposit is below the window of its asset.
    MinThreshold,
    /// The deposited asset is not one of the accepted source assets.
    InvalidMint,
    /// The escrow's share for this target asset was already swapped.
    AlreadySwapped,
    /// The swap authorization was reached through a nested invocation.
    CpiDisabled,
    /// The next instruction is not the aggregator's route instruction.
    InvalidSwapIx,
    /// The route instruction does not bound slippage at the required value.
    InvalidSlippage,
    /// The route instruction swaps another amount than the one released.
    InvalidAmount,
    /// The route instruction swaps from another asset than the escrow's.
    InvalidFromMint,
    /// The route instruction swaps into another asset than the requested one.
    InvalidToMint,
    /// There is no instruction after the swap authorization.
    MissingSwapIx,
    /// The instruction after the route is not this program's finalize.
    InvalidFinalizeIx,
    /// The finalize instruction books another amount than the route quotes.
    InvalidFinalizeAmount,
    /// There is no instruction after the route instruction.
    MissingFinalizeIx,
    /// The finalize instruction credits another owner than the depositor.
    InvalidFinalizeOwner,
    /// The finalize instruction names another target asset.
    InvalidFinalizeMint,
    /// A withdrawal does not match the escrow's per-asset share.
    AmountMismatch,
    /// The asset is not part of the index.
    InvalidMintAddress,
}

} // verus!
