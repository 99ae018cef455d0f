//! The pallet's genesis: kitties given with their DNA and gender.

use vstd::prelude::*;

use crate::model::{empty_state, mint_outcome, PalletState};
use crate::pallet::Pallet;
use crate::types::{AccountId, Gender};

verus! {

/// The kitties a chain starts with: owner, DNA and gender of each.
pub struct GenesisConfig {
    pub kitties: Vec<(AccountId, [u8; 16], Gender)>,
}

/// The storage after minting each kitty of `entries` in turn; an entry whose
/// mint is refused is skipped.
pub open spec fn genesis_state(entries: Seq<(AccountId, [u8; 16], Gender)>) -> PalletState
    decreases entries.len(),
{
    if entries.len() == 0 {
        empty_state()
    } else {
        let e = entries.last();
        mint_outcome(genesis_state(entries.drop_last()), e.0, e.1@, e.2).1
    }
}

impl Default for GenesisConfig {
    fn default() -> (g: GenesisConfig)
        ensures
            g.kitties@ == Seq::<(AccountId, [u8; 16], Gender)>::empty(),
    {
        GenesisConfig { kitties: Vec::new() }
    }
}

impl GenesisConfig {
    /// The storage of a chain that starts with these kitties.  When building a
    /// kitty from genesis config, the dna and gender are supplied.
    pub fn build(&self) -> (p: Pallet)
        ensures
            p.wf(),
            p@ == genesis_state(self.kitties@),
    {
        let mut p = Pallet::new();
        let n = self.kitties.len();
        let mut i: usize = 0;
        assert(self.kitties@.take(0) =~= Seq::<(AccountId, [u8; 16], Gender)>::empty());
        while i < n
            invariant
                n == self.kitties@.len(),
                i <= n,
                p.wf(),
                p@ == genesis_state(self.kitties@.take(i as int)),
            decreases n - i,
        {
            let (acct, dna, gender) = self.kitties[i];
            let _ = p.do_mint(acct, dna, gender);
            assert(self.kitties@.take(i + 1).drop_last() =~= self.kitties@.take(i as int));
            i = i + 1;
        }
        assert(self.kitties@.take(n as int) =~= self.kitties@);
        p
    }
}

} // verus!
