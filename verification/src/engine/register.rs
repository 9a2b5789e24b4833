//! Registering a merchant.

use vstd::prelude::*;
use crate::account::{effects_view, push_effect, AccountInfo, Effect, EffectView};
use crate::address::{
    address_with_seed, rent_sysvar_bytes, rent_sysvar_id, seeded_address, system_program_bytes,
    system_program_id, Address,
};
use crate::config::Config;
use crate::engine::common::{answers, creation, push_creation, Outcome};
use crate::error::PaymentError;
use crate::registry::{register, spec_register};
use crate::state::decode_merchant;
use crate::validator::{
    check_shape, check_target, holding_of, merchant_holding, shape_ok, spec_target, Operation,
};
use crate::wire::opt_str_view;

verus! {

/// The sponsor that comes with a registration, if one comes with it.
pub open spec fn sponsor_among(accounts: Seq<AccountInfo>) -> Option<Address> {
    if accounts.len() == 5 {
        Some(accounts[4].key)
    } else {
        None
    }
}

/// What registering a merchant comes to.
///
/// Four or five accounts come with it: who registers, signing; the merchant
/// account, writable; the system program; the rent sysvar; and, if the
/// merchant has a sponsor of its own, the sponsor. The merchant account has
/// to be the one that is derived from the registrant, the seed and the
/// program, and it must not hold a record yet.
pub open spec fn register_outcome(
    config: Config,
    program_id: Address,
    accounts: Seq<AccountInfo>,
    seed: Option<Seq<char>>,
    fee: Option<u64>,
    data: Option<Seq<char>>,
) -> Outcome {
    if !shape_ok(Operation::RegisterMerchant, accounts) {
        Err(PaymentError::MalformedInstruction)
    } else if accounts[2].key@ != system_program_bytes() || accounts[3].key@
        != rent_sysvar_bytes() {
        Err(PaymentError::AddressMismatch)
    } else {
        let record = spec_register(
            config,
            accounts[0].key,
            seed,
            fee,
            sponsor_among(accounts),
            data,
        );
        if !record.fits() {
            Err(PaymentError::MalformedInstruction)
        } else if seeded_address(accounts[0].key@, record.seed, program_id@) != Some(
            accounts[1].key@,
        ) {
            Err(PaymentError::AddressMismatch)
        } else {
            match spec_target(
                accounts[1],
                program_id,
                holding_of(decode_merchant(accounts[1].data@)),
            ) {
                Ok(create) => Ok(
                    creation(
                        create,
                        accounts[0].key,
                        accounts[1].key,
                        record.encoding().len(),
                        program_id,
                    ) + seq![
                        EffectView::WriteRecord {
                            account: accounts[1].key,
                            data: record.encoding(),
                        },
                    ],
                ),
                Err(e) => Err(e),
            }
        }
    }
}

/// Registers a merchant.
pub fn process_register_merchant(
    config: &Config,
    program_id: &Address,
    accounts: &Vec<AccountInfo>,
    seed: Option<String>,
    fee: Option<u64>,
    data: Option<String>,
) -> (answer: Result<Vec<Effect>, PaymentError>)
    ensures
        answers(
            answer,
            register_outcome(
                *config,
                *program_id,
                accounts@,
                opt_str_view(seed),
                fee,
                opt_str_view(data),
            ),
        ),
{
    match check_shape(Operation::RegisterMerchant, accounts) {
        Ok(()) => {},
        Err(e) => {
            return Err(e);
        },
    }
    if !accounts[2].key.same_as(&system_program_id()) || !accounts[3].key.same_as(
        &rent_sysvar_id(),
    ) {
        return Err(PaymentError::AddressMismatch);
    }
    let sponsor = if accounts.len() == 5 {
        Some(accounts[4].key)
    } else {
        None
    };
    let merchant = register(config, accounts[0].key, seed, fee, sponsor, data);
    if !merchant.fits_wire() {
        return Err(PaymentError::MalformedInstruction);
    }
    match address_with_seed(&accounts[0].key, merchant.seed.as_str(), program_id) {
        Some(derived) => {
            if !derived.same_as(&accounts[1].key) {
                return Err(PaymentError::AddressMismatch);
            }
        },
        None => {
            return Err(PaymentError::AddressMismatch);
        },
    }
    let create = match check_target(&accounts[1], program_id, merchant_holding(&accounts[1])) {
        Ok(create) => create,
        Err(e) => {
            return Err(e);
        },
    };
    let bytes = merchant.pack();
    let mut effects: Vec<Effect> = Vec::new();
    assert(effects_view(effects@) =~= Seq::empty());
    push_creation(&mut effects, create, accounts[0].key, accounts[1].key, &bytes, *program_id);
    push_effect(&mut effects, Effect::WriteRecord { account: accounts[1].key, data: bytes });
    assert(effects_view(effects@) =~= creation(
        create,
        accounts[0].key,
        accounts[1].key,
        merchant@.encoding().len(),
        *program_id,
    ) + seq![
        EffectView::WriteRecord { account: accounts[1].key, data: merchant@.encoding() },
    ]);
    Ok(effects)
}

} // verus!
