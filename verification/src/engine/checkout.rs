//! Checkout: an order is created and paid in full in one step.

use vstd::prelude::*;
use crate::account::{
    effects_view, push_effect, token_account_size, AccountInfo, Effect, EffectView,
    TOKEN_ACCOUNT_SIZE,
};
use crate::address::{
    rent_sysvar_bytes, rent_sysvar_id, system_program_bytes, system_program_id, token_program_bytes,
    token_program_id, Address,
};
use crate::catalog::{all_priced, lemma_total_is_line_sum, line_sum, order_total, spec_order_total};
use crate::config::Config;
use crate::documents::{opt_json_view, receipt, receipt_doc};
use crate::engine::common::{answers, creation, push_creation, Outcome};
use crate::error::PaymentError;
use crate::fees::{spec_split, split};
use crate::instruction::{items_view, OrderItem};
use crate::json::{parse_json, parsed_json, print_json, printed_json, Json, JsonValue};
use crate::order::spec_paid_order;
use crate::state::{decode_order, MerchantAccount, MerchantRecord, OrderAccount};
use crate::validator::{
    authority_of, check_authority, check_escrow, check_shape, check_target, escrow_of, holding_of,
    load_merchant, matches_derived, merchant_in, order_holding, shape_ok, spec_target, Operation,
};
use crate::wire::opt_str_view;

verus! {

// ---------------------------------------------------------------------------
// The fee
// ---------------------------------------------------------------------------

/// The transfers that pay a merchant's fee. Where the program owner sponsors
/// the merchant itself, the whole fee goes to the program owner's account.
/// Otherwise it is split, and each part goes to its account.
pub open spec fn fee_effects(
    config: Config,
    merchant: MerchantRecord,
    payer: Address,
    owner_account: Address,
    sponsor_account: Address,
) -> Outcome {
    if merchant.sponsor == config.program_owner@ {
        Ok(seq![EffectView::TransferLamports { from: payer, to: owner_account, amount: merchant.fee }])
    } else {
        match spec_split(merchant.fee, config.sponsor_share_bp) {
            Ok((owner_fee, sponsor_fee)) => Ok(
                seq![
                    EffectView::TransferLamports {
                        from: payer,
                        to: owner_account,
                        amount: owner_fee,
                    },
                    EffectView::TransferLamports {
                        from: payer,
                        to: sponsor_account,
                        amount: sponsor_fee,
                    },
                ],
            ),
            Err(e) => Err(e),
        }
    }
}

/// The transfers that pay a merchant's fee.
pub fn pay_fee(
    config: &Config,
    merchant: &MerchantAccount,
    payer: Address,
    owner_account: Address,
    sponsor_account: Address,
) -> (answer: Result<Vec<Effect>, PaymentError>)
    ensures
        answers(answer, fee_effects(*config, merchant@, payer, owner_account, sponsor_account)),
{
    let mut effects: Vec<Effect> = Vec::new();
    if merchant.sponsor.same_as(&config.program_owner) {
        effects.push(
            Effect::TransferLamports { from: payer, to: owner_account, amount: merchant.fee },
        );
        assert(effects_view(effects@) =~= seq![
            EffectView::TransferLamports { from: payer, to: owner_account, amount: merchant.fee },
        ]);
        Ok(effects)
    } else {
        match split(merchant.fee, config.sponsor_share_bp) {
            Ok((owner_fee, sponsor_fee)) => {
                effects.push(
                    Effect::TransferLamports { from: payer, to: owner_account, amount: owner_fee },
                );
                effects.push(
                    Effect::TransferLamports {
                        from: payer,
                        to: sponsor_account,
                        amount: sponsor_fee,
                    },
                );
                assert(effects_view(effects@) =~= seq![
                    EffectView::TransferLamports {
                        from: payer,
                        to: owner_account,
                        amount: owner_fee,
                    },
                    EffectView::TransferLamports {
                        from: payer,
                        to: sponsor_account,
                        amount: sponsor_fee,
                    },
                ]);
                Ok(effects)
            },
            Err(e) => Err(e),
        }
    }
}

/// The parts of a fee that is paid add up to the fee.
pub proof fn lemma_fee_is_paid_in_full(
    config: Config,
    merchant: MerchantRecord,
    payer: Address,
    owner_account: Address,
    sponsor_account: Address,
)
    ensures
        match fee_effects(config, merchant, payer, owner_account, sponsor_account) {
            Ok(effects) => if effects.len() == 1 {
                effects[0] == (EffectView::TransferLamports {
                    from: payer,
                    to: owner_account,
                    amount: merchant.fee,
                })
            } else {
                &&& effects.len() == 2
                &&& effects[0] matches EffectView::TransferLamports { amount: owner_fee, .. }
                &&& effects[1] matches EffectView::TransferLamports { amount: sponsor_fee, .. }
                &&& owner_fee + sponsor_fee == merchant.fee
            },
            Err(e) => e == PaymentError::ArithmeticOverflow,
        },
{
}

// ---------------------------------------------------------------------------
// The accounts of a checkout
// ---------------------------------------------------------------------------

/// What the accounts of a checkout come to: the merchant's record and
/// whether the order account has to be created, or the error that rejects
/// the accounts.
///
/// Twelve accounts come with a checkout: the buyer, signing; the order
/// account, written; the merchant account; the escrow token account and the
/// buyer's token account, written; the program owner's account and the
/// sponsor's account, written; the mint; the program's authority; the token
/// program; the system program; the rent sysvar.
pub open spec fn checkout_accounts(
    config: Config,
    program_id: Address,
    accounts: Seq<AccountInfo>,
) -> Result<(MerchantRecord, bool), PaymentError> {
    if !shape_ok(Operation::ExpressCheckout, accounts) {
        Err(PaymentError::MalformedInstruction)
    } else if accounts[9].key@ != token_program_bytes() || accounts[10].key@
        != system_program_bytes() || accounts[11].key@ != rent_sysvar_bytes() {
        Err(PaymentError::AddressMismatch)
    } else if !matches_derived(accounts[8].key@, authority_of(config, program_id)) {
        Err(PaymentError::AddressMismatch)
    } else if !matches_derived(
        accounts[3].key@,
        escrow_of(program_id, accounts[1].key@, accounts[7].key@),
    ) {
        Err(PaymentError::AddressMismatch)
    } else {
        match merchant_in(accounts[2], program_id) {
            Ok(merchant) => {
                if accounts[5].key@ != config.program_owner@ || accounts[6].key@
                    != merchant.sponsor {
                    Err(PaymentError::AddressMismatch)
                } else {
                    match spec_target(
                        accounts[1],
                        program_id,
                        holding_of(decode_order(accounts[1].data@)),
                    ) {
                        Ok(create) => Ok((merchant, create)),
                        Err(e) => Err(e),
                    }
                }
            },
            Err(e) => Err(e),
        }
    }
}

/// Checks the accounts of a checkout.
pub fn check_checkout_accounts(
    config: &Config,
    program_id: &Address,
    accounts: &Vec<AccountInfo>,
) -> (checked: Result<(MerchantAccount, bool), PaymentError>)
    ensures
        match checked {
            Ok((merchant, create)) => checkout_accounts(*config, *program_id, accounts@) == Ok::<
                (MerchantRecord, bool),
                PaymentError,
            >((merchant@, create)) && accounts@.len() == 12,
            Err(e) => checkout_accounts(*config, *program_id, accounts@) == Err::<
                (MerchantRecord, bool),
                PaymentError,
            >(e),
        },
{
    match check_shape(Operation::ExpressCheckout, accounts) {
        Ok(()) => {},
        Err(e) => {
            return Err(e);
        },
    }
    if !accounts[9].key.same_as(&token_program_id()) || !accounts[10].key.same_as(
        &system_program_id(),
    ) || !accounts[11].key.same_as(&rent_sysvar_id()) {
        return Err(PaymentError::AddressMismatch);
    }
    match check_authority(config, program_id, &accounts[8].key) {
        Ok(()) => {},
        Err(e) => {
            return Err(e);
        },
    }
    match check_escrow(program_id, &accounts[1].key, &accounts[7].key, &accounts[3].key) {
        Ok(()) => {},
        Err(e) => {
            return Err(e);
        },
    }
    let merchant = match load_merchant(&accounts[2], program_id) {
        Ok(record) => record,
        Err(e) => {
            return Err(e);
        },
    };
    if !accounts[5].key.same_as(&config.program_owner) || !accounts[6].key.same_as(
        &merchant.sponsor,
    ) {
        return Err(PaymentError::AddressMismatch);
    }
    match check_target(&accounts[1], program_id, order_holding(&accounts[1])) {
        Ok(create) => Ok((merchant, create)),
        Err(e) => Err(e),
    }
}

// ---------------------------------------------------------------------------
// The order and its payment
// ---------------------------------------------------------------------------

/// What is done for an order once its twelve accounts are in order: the
/// order account is created, where it has to be; the escrow token account is
/// created and made a token account of the mint under the program's
/// authority; the amount moves from the buyer's token account into escrow in
/// one piece; the fee is paid; the record of the paid order is written.
pub open spec fn settle_outcome(
    config: Config,
    program_id: Address,
    accounts: Seq<AccountInfo>,
    merchant: MerchantRecord,
    create: bool,
    amount: u64,
    order_id: Seq<char>,
    secret: Seq<char>,
    data: Seq<char>,
) -> Outcome {
    let record = spec_paid_order(
        accounts[2].key,
        accounts[7].key,
        accounts[3].key,
        accounts[0].key,
        amount,
        order_id,
        secret,
        data,
    );
    if accounts.len() != 12 || !record.fits() {
        Err(PaymentError::MalformedInstruction)
    } else {
        match fee_effects(config, merchant, accounts[0].key, accounts[5].key, accounts[6].key) {
            Ok(fee) => Ok(
                creation(
                    create,
                    accounts[0].key,
                    accounts[1].key,
                    record.encoding().len(),
                    program_id,
                ) + seq![
                    EffectView::CreateAccount {
                        payer: accounts[0].key,
                        new_account: accounts[3].key,
                        size: TOKEN_ACCOUNT_SIZE,
                        owner: accounts[9].key,
                    },
                    EffectView::InitializeTokenAccount {
                        account: accounts[3].key,
                        mint: accounts[7].key,
                        authority: accounts[8].key,
                    },
                    EffectView::TransferTokens {
                        from: accounts[4].key,
                        to: accounts[3].key,
                        authority: accounts[0].key,
                        amount,
                    },
                ] + fee + seq![
                    EffectView::WriteRecord { account: accounts[1].key, data: record.encoding() },
                ],
            ),
            Err(e) => Err(e),
        }
    }
}

/// Settles an order whose accounts are in order.
pub fn settle(
    config: &Config,
    program_id: &Address,
    accounts: &Vec<AccountInfo>,
    merchant: &MerchantAccount,
    create: bool,
    amount: u64,
    order_id: String,
    secret: String,
    data: String,
) -> (answer: Result<Vec<Effect>, PaymentError>)
    ensures
        answers(
            answer,
            settle_outcome(
                *config,
                *program_id,
                accounts@,
                merchant@,
                create,
                amount,
                order_id@,
                secret@,
                data@,
            ),
        ),
{
    if accounts.len() != 12 {
        return Err(PaymentError::MalformedInstruction);
    }
    let order = OrderAccount::paid(
        accounts[2].key,
        accounts[7].key,
        accounts[3].key,
        accounts[0].key,
        amount,
        order_id,
        secret,
        data,
    );
    if !order.fits_wire() {
        return Err(PaymentError::MalformedInstruction);
    }
    let mut fee = match pay_fee(
        config,
        merchant,
        accounts[0].key,
        accounts[5].key,
        accounts[6].key,
    ) {
        Ok(transfers) => transfers,
        Err(e) => {
            return Err(e);
        },
    };
    let ghost fee_view = effects_view(fee@);
    let bytes = order.pack();
    let mut effects: Vec<Effect> = Vec::new();
    assert(effects_view(effects@) =~= Seq::empty());
    push_creation(&mut effects, create, accounts[0].key, accounts[1].key, &bytes, *program_id);
    push_effect(
        &mut effects,
        Effect::CreateAccount {
            payer: accounts[0].key,
            new_account: accounts[3].key,
            size: token_account_size(),
            owner: accounts[9].key,
        },
    );
    push_effect(
        &mut effects,
        Effect::InitializeTokenAccount {
            account: accounts[3].key,
            mint: accounts[7].key,
            authority: accounts[8].key,
        },
    );
    push_effect(
        &mut effects,
        Effect::TransferTokens {
            from: accounts[4].key,
            to: accounts[3].key,
            authority: accounts[0].key,
            amount,
        },
    );
    let ghost before_fee = effects_view(effects@);
    effects.append(&mut fee);
    assert(effects_view(effects@) =~= before_fee + fee_view);
    push_effect(&mut effects, Effect::WriteRecord { account: accounts[1].key, data: bytes });
    assert(effects_view(effects@) =~= creation(
        create,
        accounts[0].key,
        accounts[1].key,
        order@.encoding().len(),
        *program_id,
    ) + seq![
        EffectView::CreateAccount {
            payer: accounts[0].key,
            new_account: accounts[3].key,
            size: TOKEN_ACCOUNT_SIZE,
            owner: accounts[9].key,
        },
        EffectView::InitializeTokenAccount {
            account: accounts[3].key,
            mint: accounts[7].key,
            authority: accounts[8].key,
        },
        EffectView::TransferTokens {
            from: accounts[4].key,
            to: accounts[3].key,
            authority: accounts[0].key,
            amount,
        },
    ] + fee_view + seq![
        EffectView::WriteRecord { account: accounts[1].key, data: order@.encoding() },
    ]);
    Ok(effects)
}

// ---------------------------------------------------------------------------
// Express checkout
// ---------------------------------------------------------------------------

/// The data of an express order: what the buyer sent, or the empty object.
pub open spec fn express_data(data: Option<Seq<char>>) -> Seq<char> {
    match data {
        Some(text) => text,
        None => "{}"@,
    }
}

/// What an express checkout comes to: an order of one amount, with the
/// buyer's data written into it as it came.
pub open spec fn express_outcome(
    config: Config,
    program_id: Address,
    accounts: Seq<AccountInfo>,
    amount: u64,
    order_id: Seq<char>,
    secret: Seq<char>,
    data: Option<Seq<char>>,
) -> Outcome {
    match checkout_accounts(config, program_id, accounts) {
        Ok((merchant, create)) => settle_outcome(
            config,
            program_id,
            accounts,
            merchant,
            create,
            amount,
            order_id,
            secret,
            express_data(data),
        ),
        Err(e) => Err(e),
    }
}

/// Creates an order of one amount and pays for it.
pub fn process_express_checkout(
    config: &Config,
    program_id: &Address,
    accounts: &Vec<AccountInfo>,
    amount: u64,
    order_id: String,
    secret: String,
    data: Option<String>,
) -> (answer: Result<Vec<Effect>, PaymentError>)
    ensures
        answers(
            answer,
            express_outcome(
                *config,
                *program_id,
                accounts@,
                amount,
                order_id@,
                secret@,
                opt_str_view(data),
            ),
        ),
{
    let (merchant, create) = match check_checkout_accounts(config, program_id, accounts) {
        Ok(found) => found,
        Err(e) => {
            return Err(e);
        },
    };
    let text = match data {
        Some(text) => text,
        None => "{}".to_owned(),
    };
    settle(config, program_id, accounts, &merchant, create, amount, order_id, secret, text)
}

// ---------------------------------------------------------------------------
// Chain checkout
// ---------------------------------------------------------------------------

/// What the buyer sent along with an order of several items, read as JSON:
/// `Ok(None)` where the buyer sent nothing, and an error where what the
/// buyer sent is not JSON.
pub open spec fn initial_of(data: Option<Seq<char>>) -> Result<Option<JsonValue>, PaymentError> {
    match data {
        Some(text) => match parsed_json(text) {
            Some(document) => Ok(Some(document)),
            None => Err(PaymentError::MalformedInstruction),
        },
        None => Ok(None),
    }
}

/// What a checkout of several items comes to once the merchant's catalog
/// was read and the twelve accounts are in order: every line has to be
/// priced; the amount has to be exactly the sum of the lines; the order's
/// data is the receipt.
pub open spec fn priced_outcome(
    config: Config,
    program_id: Address,
    accounts: Seq<AccountInfo>,
    merchant: MerchantRecord,
    create: bool,
    catalog: JsonValue,
    amount: u64,
    items: Seq<(Seq<char>, u64)>,
    initial: Option<JsonValue>,
) -> Outcome {
    if accounts.len() != 12 {
        Err(PaymentError::MalformedInstruction)
    } else {
        match spec_order_total(catalog, items) {
            Ok(total) => if total != amount {
                Err(PaymentError::InsufficientPayment)
            } else {
                settle_outcome(
                    config,
                    program_id,
                    accounts,
                    merchant,
                    create,
                    amount,
                    Seq::empty(),
                    Seq::empty(),
                    printed_json(receipt_doc(initial, items)),
                )
            },
            Err(e) => Err(e),
        }
    }
}

/// What a chain checkout comes to: an order of several items out of the
/// merchant's catalog. A merchant whose data is not JSON has no catalog to
/// order from.
pub open spec fn chain_outcome(
    config: Config,
    program_id: Address,
    accounts: Seq<AccountInfo>,
    amount: u64,
    items: Seq<(Seq<char>, u64)>,
    data: Option<Seq<char>>,
) -> Outcome {
    match checkout_accounts(config, program_id, accounts) {
        Ok((merchant, create)) => match parsed_json(merchant.data) {
            Some(catalog) => match initial_of(data) {
                Ok(initial) => priced_outcome(
                    config,
                    program_id,
                    accounts,
                    merchant,
                    create,
                    catalog,
                    amount,
                    items,
                    initial,
                ),
                Err(e) => Err(e),
            },
            None => Err(PaymentError::InvalidOrderItems),
        },
        Err(e) => Err(e),
    }
}

/// Prices an order of several items in a catalog that was read, and settles
/// it.
pub fn settle_priced(
    config: &Config,
    program_id: &Address,
    accounts: &Vec<AccountInfo>,
    merchant: &MerchantAccount,
    create: bool,
    catalog: &Json,
    amount: u64,
    items: &Vec<OrderItem>,
    initial: Option<Json>,
) -> (answer: Result<Vec<Effect>, PaymentError>)
    ensures
        answers(
            answer,
            priced_outcome(
                *config,
                *program_id,
                accounts@,
                merchant@,
                create,
                catalog@,
                amount,
                items_view(items@),
                opt_json_view(initial),
            ),
        ),
{
    if accounts.len() != 12 {
        return Err(PaymentError::MalformedInstruction);
    }
    let total = match order_total(catalog, items) {
        Ok(total) => total,
        Err(e) => {
            return Err(e);
        },
    };
    if total != amount {
        return Err(PaymentError::InsufficientPayment);
    }
    let document = receipt(initial, items);
    let text = print_json(&document);
    settle(
        config,
        program_id,
        accounts,
        merchant,
        create,
        amount,
        String::new(),
        String::new(),
        text,
    )
}

/// Creates an order of several items and pays for it.
pub fn process_chain_checkout(
    config: &Config,
    program_id: &Address,
    accounts: &Vec<AccountInfo>,
    amount: u64,
    order_items: &Vec<OrderItem>,
    data: Option<String>,
) -> (answer: Result<Vec<Effect>, PaymentError>)
    ensures
        answers(
            answer,
            chain_outcome(
                *config,
                *program_id,
                accounts@,
                amount,
                items_view(order_items@),
                opt_str_view(data),
            ),
        ),
{
    let (merchant, create) = match check_checkout_accounts(config, program_id, accounts) {
        Ok(found) => found,
        Err(e) => {
            return Err(e);
        },
    };
    let catalog = match parse_json(merchant.data.as_str()) {
        Some(document) => document,
        None => {
            return Err(PaymentError::InvalidOrderItems);
        },
    };
    let initial = match data {
        Some(text) => match parse_json(text.as_str()) {
            Some(document) => Some(document),
            None => {
                return Err(PaymentError::MalformedInstruction);
            },
        },
        None => None,
    };
    settle_priced(
        config,
        program_id,
        accounts,
        &merchant,
        create,
        &catalog,
        amount,
        order_items,
        initial,
    )
}

/// An order of several items is accepted only where the amount is exactly
/// the sum of price times quantity over its lines; where every line is
/// priced and the sum is another amount, the order is rejected with
/// `InsufficientPayment`.
pub proof fn lemma_chain_amount_is_line_sum(
    config: Config,
    program_id: Address,
    accounts: Seq<AccountInfo>,
    merchant: MerchantRecord,
    create: bool,
    catalog: JsonValue,
    amount: u64,
    items: Seq<(Seq<char>, u64)>,
    initial: Option<JsonValue>,
)
    requires
        accounts.len() == 12,
    ensures
        priced_outcome(
            config,
            program_id,
            accounts,
            merchant,
            create,
            catalog,
            amount,
            items,
            initial,
        ).is_ok() ==> all_priced(catalog, items) && line_sum(catalog, items) == amount,
        all_priced(catalog, items) && line_sum(catalog, items) <= u64::MAX && line_sum(
            catalog,
            items,
        ) != amount ==> priced_outcome(
            config,
            program_id,
            accounts,
            merchant,
            create,
            catalog,
            amount,
            items,
            initial,
        ) == Err::<Seq<EffectView>, PaymentError>(PaymentError::InsufficientPayment),
{
    lemma_total_is_line_sum(catalog, items, 0);
}

} // verus!
