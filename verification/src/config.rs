//! What an installation of the program fixes once and for all.

use vstd::prelude::*;
use crate::address::Address;
use crate::fees::BASIS_POINTS;

verus! {

/// The settings of an installation. They are handed to every operation and
/// never change while the program runs.
#[derive(Clone, Debug, PartialEq, Eq)]
pub struct Config {
    /// The least fee that a merchant can be charged for an order, in lamports.
    pub min_fee: u64,
    /// The fee of a merchant that asks for none, in lamports.
    pub default_fee: u64,
    /// The sponsor's share of each fee, in basis points.
    pub sponsor_share_bp: u64,
    /// Who receives the program owner's part of each fee.
    pub program_owner: Address,
    /// The seed from which the program's own authority is derived.
    pub authority_seed: Vec<u8>,
    /// The seed of a merchant that is registered without one.
    pub default_seed: String,
}

impl Config {
    /// Whether the settings can be used: the sponsor's share is no more than
    /// the whole fee.
    pub open spec fn valid(&self) -> bool {
        self.sponsor_share_bp <= BASIS_POINTS
    }

    /// Whether the settings can be used.
    pub fn is_valid(&self) -> (valid: bool)
        ensures
            valid == self.valid(),
    {
        self.sponsor_share_bp <= BASIS_POINTS
    }
}

} // verus!
