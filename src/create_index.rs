use vstd::prelude::*;

use crate::address::Address;
use crate::config::ProtocolConfig;
use crate::error::NoviError;
use crate::index::IndexAccount;

verus! {

/// Creation of an index: the signer asking for it and the record to fill.
#[derive(Clone, Debug)]
pub struct CreateIndex {
    pub admin: Address,
    pub index: IndexAccount,
}

impl CreateIndex {
    /// Fills the index record with `title` and `mint_list`, but only for the
    /// configured administrator; anyone else is refused and nothing changes.
    pub fn create(&mut self, config: &ProtocolConfig, title: String, mint_list: Vec<Address>, bump: u8) -> (r:
        Result<(), NoviError>)
        ensures
            r is Ok <==> old(self).admin == config.admin,
            r is Err ==> r == Err::<(), NoviError>(NoviError::PrivilageEscalated)
                && *final(self) == *old(self),
            r is Ok ==> final(self).admin == old(self).admin
                && final(self).index.title@ == title@
                && final(self).index.mint_list@ == mint_list@
                && final(self).index.bump == bump,
    {
        if self.admin != config.admin {
            return Err(NoviError::PrivilageEscalated);
        }
        self.index.initialize(title, mint_list, bump);
        Ok(())
    }
}

} // verus!
