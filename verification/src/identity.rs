//! Account identifiers, as the two field elements that the ledger and the condition script see.

use vstd::prelude::*;
use crate::word::MODULUS;

verus! {

/// The identifier of an account: its prefix and suffix elements.
#[derive(Clone, Copy, Debug, PartialEq, Eq, Structural)]
pub struct AccountId {
    pub prefix: u64,
    pub suffix: u64,
}

impl AccountId {
    /// The ledger's constraints on an identifier: both parts are canonical field elements, the
    /// version nibble is zero, the storage mode is a known one, the anchor epoch is not all
    /// ones, and the low byte of the suffix is clear.
    pub open spec fn well_formed(&self) -> bool {
        &&& self.prefix < MODULUS
        &&& self.suffix < MODULUS
        &&& (self.prefix & 0xf) == 0
        &&& ((self.prefix & 0xc0) >> 6) != 3
        &&& ((self.suffix & 0xffff_0000_0000_0000) >> 48) != 0xffff
        &&& (self.suffix & 0xff) == 0
    }

    /// The account type bits say "fungible faucet".
    pub open spec fn is_fungible_faucet(&self) -> bool {
        ((self.prefix & 0x30) >> 4) == 2
    }

    pub fn new(prefix: u64, suffix: u64) -> (id: AccountId)
        ensures
            id == (AccountId { prefix, suffix }),
    {
        AccountId { prefix, suffix }
    }

    pub fn check_well_formed(&self) -> (ok: bool)
        ensures
            ok == self.well_formed(),
    {
        self.prefix < MODULUS && self.suffix < MODULUS && (self.prefix & 0xf) == 0 && ((self.prefix
            & 0xc0) >> 6) != 3 && ((self.suffix & 0xffff_0000_0000_0000) >> 48) != 0xffff && (
        self.suffix & 0xff) == 0
    }

    pub fn check_fungible_faucet(&self) -> (ok: bool)
        ensures
            ok == self.is_fungible_faucet(),
    {
        ((self.prefix & 0x30) >> 4) == 2
    }

    /// Both parts agree: the comparison that the condition script makes.
    pub fn same_as(&self, other: &AccountId) -> (eq: bool)
        ensures
            eq == (*self == *other),
    {
        self.prefix == other.prefix && self.suffix == other.suffix
    }
}

} // verus!
