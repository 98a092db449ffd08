use vstd::prelude::*;

use crate::address::Address;

verus! {

/// The fixed identities the protocol trusts, gathered in one value so that
/// a deployment can supply its own.
#[derive(Clone, Debug)]
pub struct ProtocolConfig {
    /// This program's own identity, which the finalize instruction must target.
    pub program_id: Address,
    /// The only identity allowed to create an index.
    pub admin: Address,
    /// Wrapped native currency, an accepted source asset.
    pub wsol: Address,
    /// First accepted stable asset.
    pub usdc: Address,
    /// Second accepted stable asset.
    pub usdt: Address,
    /// The exchange aggregator that performs swaps.
    pub aggregator_program: Address,
    /// Selector of the aggregator's shared-accounts route instruction.
    pub route_selector: [u8; 8],
    /// Payload bytes of each swap variant a route step may name, indexed by
    /// the variant's tag; a tag beyond the list is refused.
    pub route_step_payload_lens: Vec<u8>,
    /// Selector of this program's finalize instruction.
    pub finalize_selector: [u8; 8],
}

} // verus!
