//! Subscription: begun on the strength of an order that paid for it.

use vstd::prelude::*;
use crate::account::{effects_view, push_effect, AccountInfo, Effect, EffectView};
use crate::address::{
    rent_sysvar_bytes, rent_sysvar_id, system_program_bytes, system_program_id, Address,
};
use crate::catalog::{find_package, lemma_picked_package, spec_find_package, PackageTerms};
use crate::documents::{
    is_linked, linked, package_name, package_part, subscription_doc, subscription_document,
};
use crate::engine::common::{answers, creation, push_creation, Outcome};
use crate::error::PaymentError;
use crate::json::{parsed_json, print_json, printed_json};
use crate::state::{decode_subscription, OrderRecord, OrderStatus, SubscriptionAccount};
use crate::subscription::spec_begin;
use crate::validator::{
    check_shape, check_target, holding_of, load_merchant, load_order, merchant_in, order_in,
    shape_ok, spec_target, subscription_holding, Operation,
};
use crate::wire::opt_str_view;

verus! {

/// What beginning a subscription comes to once the package was found: the
/// order has to have paid the price of the package at the least; the
/// subscription account must not hold a record yet; the period begins now
/// and lasts as long as the package says; the package is kept in the
/// subscription's data as it was found.
pub open spec fn begin_outcome(
    program_id: Address,
    accounts: Seq<AccountInfo>,
    order: OrderRecord,
    package: PackageTerms,
    name: Seq<char>,
    data: Option<Seq<char>>,
    now: i64,
) -> Outcome {
    if order.paid_amount < package.price {
        Err(PaymentError::InsufficientPayment)
    } else {
        match spec_target(
            accounts[1],
            program_id,
            holding_of(decode_subscription(accounts[1].data@)),
        ) {
            Ok(create) => match spec_begin(
                accounts[0].key,
                accounts[2].key,
                name,
                printed_json(subscription_doc(data, package)),
                now,
                package.duration,
            ) {
                Ok(record) => if !record.fits() {
                    Err(PaymentError::MalformedInstruction)
                } else {
                    Ok(
                        creation(
                            create,
                            accounts[0].key,
                            accounts[1].key,
                            record.encoding().len(),
                            program_id,
                        ) + seq![
                            EffectView::WriteRecord {
                                account: accounts[1].key,
                                data: record.encoding(),
                            },
                        ],
                    )
                },
                Err(e) => Err(e),
            },
            Err(e) => Err(e),
        }
    }
}

/// What beginning a subscription comes to.
///
/// Six accounts come with it: the subscriber, signing; the subscription
/// account, writable; the merchant account; the account of the order that
/// paid; the system program; the rent sysvar. The order has to be the
/// merchant's, paid, and to name this subscription in its data. The name of
/// the subscription names the package after a colon; the package is looked
/// up in the merchant's data.
pub open spec fn subscribe_outcome(
    program_id: Address,
    accounts: Seq<AccountInfo>,
    name: Seq<char>,
    data: Option<Seq<char>>,
    now: i64,
) -> Outcome {
    if !shape_ok(Operation::Subscribe, accounts) {
        Err(PaymentError::MalformedInstruction)
    } else if accounts[4].key@ != system_program_bytes() || accounts[5].key@
        != rent_sysvar_bytes() {
        Err(PaymentError::AddressMismatch)
    } else {
        match merchant_in(accounts[2], program_id) {
            Ok(merchant) => match order_in(accounts[3], program_id) {
                Ok(order) => {
                    if order.merchant != accounts[2].key@ {
                        Err(PaymentError::AddressMismatch)
                    } else if order.status != OrderStatus::Paid {
                        Err(PaymentError::InvalidOrderStatus)
                    } else if !linked(order.data, accounts[1].key@) {
                        Err(PaymentError::InvalidSubscriptionLink)
                    } else {
                        match package_part(name) {
                            Some(wanted) => match spec_find_package(merchant.data, wanted) {
                                Ok(package) => begin_outcome(
                                    program_id,
                                    accounts,
                                    order,
                                    package,
                                    name,
                                    data,
                                    now,
                                ),
                                Err(e) => Err(e),
                            },
                            None => Err(PaymentError::MalformedInstruction),
                        }
                    }
                },
                Err(e) => Err(e),
            },
            Err(e) => Err(e),
        }
    }
}

/// Begins a subscription.
pub fn process_subscribe(
    program_id: &Address,
    accounts: &Vec<AccountInfo>,
    name: String,
    data: Option<String>,
    now: i64,
) -> (answer: Result<Vec<Effect>, PaymentError>)
    ensures
        answers(
            answer,
            subscribe_outcome(*program_id, accounts@, name@, opt_str_view(data), now),
        ),
{
    match check_shape(Operation::Subscribe, accounts) {
        Ok(()) => {},
        Err(e) => {
            return Err(e);
        },
    }
    if !accounts[4].key.same_as(&system_program_id()) || !accounts[5].key.same_as(
        &rent_sysvar_id(),
    ) {
        return Err(PaymentError::AddressMismatch);
    }
    let merchant = match load_merchant(&accounts[2], program_id) {
        Ok(record) => record,
        Err(e) => {
            return Err(e);
        },
    };
    let order = match load_order(&accounts[3], program_id) {
        Ok(record) => record,
        Err(e) => {
            return Err(e);
        },
    };
    if !order.merchant.same_as(&accounts[2].key) {
        return Err(PaymentError::AddressMismatch);
    }
    match order.status {
        OrderStatus::Paid => {},
        _ => {
            return Err(PaymentError::InvalidOrderStatus);
        },
    }
    if !is_linked(order.data.as_str(), &accounts[1].key) {
        return Err(PaymentError::InvalidSubscriptionLink);
    }
    let wanted = match package_name(name.as_str()) {
        Some(text) => text,
        None => {
            return Err(PaymentError::MalformedInstruction);
        },
    };
    let package = match find_package(merchant.data.as_str(), wanted.as_str()) {
        Ok(found) => found,
        Err(e) => {
            return Err(e);
        },
    };
    proof {
        lemma_found_package_is_valid(merchant.data@, wanted@);
    }
    if order.paid_amount < package.price {
        return Err(PaymentError::InsufficientPayment);
    }
    let create = match check_target(&accounts[1], program_id, subscription_holding(&accounts[1])) {
        Ok(create) => create,
        Err(e) => {
            return Err(e);
        },
    };
    let document = subscription_document(data, &package);
    let text = print_json(&document);
    let subscription = match SubscriptionAccount::begin(
        accounts[0].key,
        accounts[2].key,
        name,
        text,
        now,
        package.duration,
    ) {
        Ok(record) => record,
        Err(e) => {
            return Err(e);
        },
    };
    if !subscription.fits_wire() {
        return Err(PaymentError::MalformedInstruction);
    }
    let bytes = subscription.pack();
    let mut effects: Vec<Effect> = Vec::new();
    assert(effects_view(effects@) =~= Seq::empty());
    push_creation(&mut effects, create, accounts[0].key, accounts[1].key, &bytes, *program_id);
    push_effect(&mut effects, Effect::WriteRecord { account: accounts[1].key, data: bytes });
    assert(effects_view(effects@) =~= creation(
        create,
        accounts[0].key,
        accounts[1].key,
        subscription@.encoding().len(),
        *program_id,
    ) + seq![
        EffectView::WriteRecord { account: accounts[1].key, data: subscription@.encoding() },
    ]);
    Ok(effects)
}

/// A package that was found in a merchant's data is a valid one of the name
/// that was asked for.
pub proof fn lemma_found_package_is_valid(data: Seq<char>, name: Seq<char>)
    ensures
        spec_find_package(data, name) matches Ok(package) ==> package.valid() && package.name
            == name,
{
    match parsed_json(data) {
        Some(catalog) => match catalog.member("packages"@) {
            Some(crate::json::JsonValue::Array(entries)) => {
                lemma_picked_package(entries, name);
            },
            _ => {},
        },
        None => {},
    }
}

/// A subscription that begins lasts exactly as long as its package says.
pub proof fn lemma_subscription_lasts_one_period(
    program_id: Address,
    accounts: Seq<AccountInfo>,
    order: OrderRecord,
    package: PackageTerms,
    name: Seq<char>,
    data: Option<Seq<char>>,
    now: i64,
)
    ensures
        begin_outcome(program_id, accounts, order, package, name, data, now).is_ok() ==> (
        spec_begin(
            accounts[0].key,
            accounts[2].key,
            name,
            printed_json(subscription_doc(data, package)),
            now,
            package.duration,
        ) matches Ok(record) && record.period_start == now && record.period_end
            - record.period_start == package.duration),
{
}

} // verus!
