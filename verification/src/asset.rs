//! Fungible assets and the faucets that issue them.

use vstd::prelude::*;
use crate::error::ConstructionError;
use crate::identity::AccountId;

verus! {

/// The largest amount that the ledger accepts in one fungible asset, `2^63 - 1`.
pub const MAX_AMOUNT: u64 = 0x7fff_ffff_ffff_ffff;

/// A faucet with its declared maximum supply.
#[derive(Clone, Copy, Debug, PartialEq, Eq, Structural)]
pub struct Faucet {
    pub id: AccountId,
    pub max_supply: u64,
}

/// A quantity of the token that one faucet issues.
#[derive(Clone, Copy, Debug, PartialEq, Eq, Structural)]
pub struct Asset {
    pub faucet: AccountId,
    pub amount: u64,
}

impl Faucet {
    /// The identifier is that of a fungible faucet and the supply fits in one asset.
    pub open spec fn wf(&self) -> bool {
        &&& self.id.well_formed()
        &&& self.id.is_fungible_faucet()
        &&& self.max_supply <= MAX_AMOUNT
    }

    pub fn check(&self) -> (ok: bool)
        ensures
            ok == self.wf(),
    {
        self.id.check_well_formed() && self.id.check_fungible_faucet() && self.max_supply
            <= MAX_AMOUNT
    }

    /// An amount that this faucet can back: not zero and within the declared supply.
    pub open spec fn can_issue(&self, amount: u64) -> bool {
        0 < amount <= self.max_supply
    }

    /// The asset of `amount` units of this faucet's token.
    pub fn asset(&self, amount: u64) -> (r: Result<Asset, ConstructionError>)
        ensures
            self.wf() && self.can_issue(amount) ==> r == Ok::<Asset, ConstructionError>(
                Asset { faucet: self.id, amount },
            ),
            !(self.wf() && self.can_issue(amount)) ==> r == Err::<Asset, ConstructionError>(
                ConstructionError::InvalidAsset,
            ),
    {
        if self.check() && amount > 0 && amount <= self.max_supply {
            Ok(Asset { faucet: self.id, amount })
        } else {
            Err(ConstructionError::InvalidAsset)
        }
    }
}

impl Asset {
    /// What the ledger asks of a fungible asset, and that it is not empty.
    pub open spec fn wf(&self) -> bool {
        &&& self.faucet.well_formed()
        &&& self.faucet.is_fungible_faucet()
        &&& 0 < self.amount <= MAX_AMOUNT
    }
}

} // verus!
