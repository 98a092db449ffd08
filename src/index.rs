use vstd::prelude::*;

use crate::address::Address;
use crate::error::NoviError;

verus! {

/// An index fund: a title and the ordered list of target assets it holds.
/// The position of an asset in `mint_list` is its accounting slot in every
/// escrow and profile of the index.
#[derive(Clone, Debug)]
pub struct IndexAccount {
    pub title: String,
    pub mint_list: Vec<Address>,
    pub bump: u8,
}

/// The accounting slot of `mint` in `mints`: its first position, or
/// `InvalidMintAddress` when it is absent.
pub open spec fn resolve_position(mints: Seq<Address>, mint: Address) -> Result<usize, NoviError> {
    match mints.index_of_first(mint) {
        Some(i) => Ok(i as usize),
        None => Err(NoviError::InvalidMintAddress),
    }
}

impl IndexAccount {
    pub fn initialize(&mut self, title: String, mint_list: Vec<Address>, bump: u8)
        ensures
            final(self).title@ == title@,
            final(self).mint_list@ == mint_list@,
            final(self).bump == bump,
    {
        self.title = title;
        self.mint_list = mint_list;
        self.bump = bump;
    }

    /// Resolves `mint` to its accounting slot by a linear scan.
    pub fn check_address(&self, mint: Address) -> (r: Result<usize, NoviError>)
        ensures
            r == resolve_position(self.mint_list@, mint),
            r matches Ok(i) ==> i < self.mint_list@.len() && self.mint_list@[i as int] == mint
                && forall|j: int| 0 <= j < i ==> self.mint_list@[j] != mint,
            r is Err <==> !self.mint_list@.contains(mint),
    {
        let mut i: usize = 0;
        while i < self.mint_list.len()
            invariant
                0 <= i <= self.mint_list@.len(),
                forall|j: int| 0 <= j < i ==> self.mint_list@[j] != mint,
            decreases self.mint_list@.len() - i,
        {
            if self.mint_list[i] == mint {
                proof {
                    assert(self.mint_list@[i as int].bytes == mint.bytes);
                    assert(self.mint_list@[i as int] == mint);
                    self.mint_list@.index_of_first_ensures(mint);
                }
                return Ok(i);
            }
            i = i + 1;
        }
        proof {
            self.mint_list@.index_of_first_ensures(mint);
        }
        Err(NoviError::InvalidMintAddress)
    }
}

} // verus!

verus! {

/// Bytes of an index record besides its title and asset list: selector, the
/// two length prefixes and the bump.
pub const INDEX_ACCOUNT_INIT_SPACE: usize = 8 + 4 + 4 + 1;

/// Bytes of one asset identity.
pub const ADDRESS_LEN: usize = 32;

impl IndexAccount {
    /// Storage for an index with a title of `title_len` bytes and `n` target
    /// assets, or `None` when that size is not representable.
    pub fn space(title_len: usize, n: usize) -> (r: Option<usize>)
        ensures
            r matches Some(s) ==> s == INDEX_ACCOUNT_INIT_SPACE + title_len + ADDRESS_LEN * n,
            r is None <==> INDEX_ACCOUNT_INIT_SPACE + title_len + ADDRESS_LEN * n > usize::MAX,
    {
        let base = match INDEX_ACCOUNT_INIT_SPACE.checked_add(title_len) {
            Some(b) => b,
            None => return None,
        };
        let list = match ADDRESS_LEN.checked_mul(n) {
            Some(l) => l,
            None => return None,
        };
        base.checked_add(list)
    }
}

} // verus!
