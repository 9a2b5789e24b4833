//! Registering a merchant.

use vstd::prelude::*;
use crate::address::Address;
use crate::config::Config;
use crate::fees::{enforce_minimum, spec_enforce_minimum};
use crate::state::{MerchantAccount, MerchantRecord};
use crate::wire::opt_str_view;

verus! {

/// The fee that is asked for where a merchant asks for none of its own.
pub open spec fn requested_or_default(config: Config, requested_fee: Option<u64>) -> u64 {
    match requested_fee {
        Some(fee) => fee,
        None => config.default_fee,
    }
}

/// The record of a newly registered merchant: the fee is the larger of what
/// was asked for and the floor; without a sponsor of its own the merchant is
/// sponsored by the program owner; without a seed it is registered under the
/// default one; without data its data is the empty object.
pub open spec fn spec_register(
    config: Config,
    owner: Address,
    seed: Option<Seq<char>>,
    requested_fee: Option<u64>,
    sponsor: Option<Address>,
    data: Option<Seq<char>>,
) -> MerchantRecord {
    MerchantRecord {
        owner: owner@,
        sponsor: match sponsor {
            Some(address) => address@,
            None => config.program_owner@,
        },
        fee: spec_enforce_minimum(requested_or_default(config, requested_fee), config.min_fee),
        seed: match seed {
            Some(text) => text,
            None => config.default_seed@,
        },
        data: match data {
            Some(text) => text,
            None => "{}"@,
        },
    }
}

/// The record of a newly registered merchant.
pub fn register(
    config: &Config,
    owner: Address,
    seed: Option<String>,
    requested_fee: Option<u64>,
    sponsor: Option<Address>,
    data: Option<String>,
) -> (account: MerchantAccount)
    ensures
        account@ == spec_register(
            *config,
            owner,
            opt_str_view(seed),
            requested_fee,
            sponsor,
            opt_str_view(data),
        ),
        account@.fee >= config.min_fee,
{
    let asked = match requested_fee {
        Some(fee) => fee,
        None => config.default_fee,
    };
    MerchantAccount {
        owner,
        sponsor: match sponsor {
            Some(address) => address,
            None => config.program_owner,
        },
        fee: enforce_minimum(asked, config.min_fee),
        seed: match seed {
            Some(text) => text,
            None => config.default_seed.clone(),
        },
        data: match data {
            Some(text) => text,
            None => "{}".to_owned(),
        },
    }
}

/// The fee that a registration stores is the larger of the fee that was
/// asked for and the floor, and so never below the floor.
pub proof fn lemma_registered_fee(
    config: Config,
    owner: Address,
    seed: Option<Seq<char>>,
    requested_fee: Option<u64>,
    sponsor: Option<Address>,
    data: Option<Seq<char>>,
)
    ensures
        ({
            let stored = spec_register(config, owner, seed, requested_fee, sponsor, data).fee;
            let asked = requested_or_default(config, requested_fee);
            &&& stored >= config.min_fee
            &&& stored >= asked
            &&& stored == asked || stored == config.min_fee
        }),
{
}

} // verus!
