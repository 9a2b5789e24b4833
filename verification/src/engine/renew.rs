//! Renewal: a subscription is extended by periods that an order paid for.

use vstd::prelude::*;
use crate::account::{effects_view, AccountInfo, Effect, EffectView};
use crate::address::Address;
use crate::catalog::PackageTerms;
use crate::documents::{is_linked, linked, load_package, package_in};
use crate::engine::common::{answers, Outcome};
use crate::error::PaymentError;
use crate::state::{lemma_decoded_subscription_fits, OrderRecord, OrderStatus, SubscriptionRecord};
use crate::validator::{
    check_shape, load_merchant, load_order, load_subscription, merchant_in, order_in, shape_ok,
    subscription_in, Operation,
};

verus! {

/// What a renewal comes to once the records were read: the periods are added
/// to the subscription, and the order has to have paid the price of the
/// package for each of them at the least.
pub open spec fn extend_outcome(
    account: Address,
    subscription: SubscriptionRecord,
    order: OrderRecord,
    package: PackageTerms,
    quantity: i64,
) -> Outcome {
    match subscription.renewed(quantity, package.duration) {
        Ok(next) => {
            if quantity * package.price > u64::MAX {
                Err(PaymentError::ArithmeticOverflow)
            } else if order.paid_amount < quantity * package.price {
                Err(PaymentError::InsufficientPayment)
            } else {
                Ok(seq![EffectView::WriteRecord { account, data: next.encoding() }])
            }
        },
        Err(e) => Err(e),
    }
}

/// What a renewal comes to.
///
/// Four accounts come with it: who renews, signing; the subscription
/// account, writable; the merchant account; the account of the order that
/// paid. Subscription and order have to be the merchant's, and the order has
/// to be paid and to name this subscription in its data. The periods are
/// those of the package that the subscription was begun with, as the
/// subscription keeps it in its data.
pub open spec fn renew_outcome(
    program_id: Address,
    accounts: Seq<AccountInfo>,
    quantity: i64,
) -> Outcome {
    if !shape_ok(Operation::RenewSubscription, accounts) {
        Err(PaymentError::MalformedInstruction)
    } else {
        match subscription_in(accounts[1], program_id) {
            Ok(subscription) => match merchant_in(accounts[2], program_id) {
                Ok(merchant) => match order_in(accounts[3], program_id) {
                    Ok(order) => {
                        if subscription.merchant != accounts[2].key@ || order.merchant
                            != accounts[2].key@ {
                            Err(PaymentError::AddressMismatch)
                        } else if order.status != OrderStatus::Paid {
                            Err(PaymentError::InvalidOrderStatus)
                        } else if !linked(order.data, accounts[1].key@) {
                            Err(PaymentError::InvalidSubscriptionLink)
                        } else {
                            match package_in(subscription.data) {
                                Some(package) => extend_outcome(
                                    accounts[1].key,
                                    subscription,
                                    order,
                                    package,
                                    quantity,
                                ),
                                None => Err(PaymentError::CorruptAccountData),
                            }
                        }
                    },
                    Err(e) => Err(e),
                },
                Err(e) => Err(e),
            },
            Err(e) => Err(e),
        }
    }
}

/// Renews a subscription.
pub fn process_renew_subscription(
    program_id: &Address,
    accounts: &Vec<AccountInfo>,
    quantity: i64,
) -> (answer: Result<Vec<Effect>, PaymentError>)
    ensures
        answers(answer, renew_outcome(*program_id, accounts@, quantity)),
{
    match check_shape(Operation::RenewSubscription, accounts) {
        Ok(()) => {},
        Err(e) => {
            return Err(e);
        },
    }
    let subscription = match load_subscription(&accounts[1], program_id) {
        Ok(record) => record,
        Err(e) => {
            return Err(e);
        },
    };
    let merchant = match load_merchant(&accounts[2], program_id) {
        Ok(record) => record,
        Err(e) => {
            return Err(e);
        },
    };
    let order = match load_order(&accounts[3], program_id) {
        Ok(record) => record,
        Err(e) => {
            return Err(e);
        },
    };
    if !subscription.merchant.same_as(&accounts[2].key) || !order.merchant.same_as(
        &accounts[2].key,
    ) {
        return Err(PaymentError::AddressMismatch);
    }
    match order.status {
        OrderStatus::Paid => {},
        _ => {
            return Err(PaymentError::InvalidOrderStatus);
        },
    }
    if !is_linked(order.data.as_str(), &accounts[1].key) {
        return Err(PaymentError::InvalidSubscriptionLink);
    }
    let package = match load_package(subscription.data.as_str()) {
        Some(found) => found,
        None => {
            return Err(PaymentError::CorruptAccountData);
        },
    };
    proof {
        lemma_decoded_subscription_fits(accounts@[1].data@);
    }
    let next = match subscription.renewed(quantity, package.duration) {
        Ok(next) => next,
        Err(e) => {
            return Err(e);
        },
    };
    assert(quantity >= 0);
    assert(quantity * package.price >= 0) by (nonlinear_arith)
        requires
            quantity >= 0,
            package.price >= 0,
    ;
    let cost = match (quantity as u64).checked_mul(package.price) {
        Some(product) => product,
        None => {
            return Err(PaymentError::ArithmeticOverflow);
        },
    };
    if order.paid_amount < cost {
        return Err(PaymentError::InsufficientPayment);
    }
    let bytes = next.pack();
    let mut effects: Vec<Effect> = Vec::new();
    effects.push(Effect::WriteRecord { account: accounts[1].key, data: bytes });
    assert(effects_view(effects@) =~= seq![
        EffectView::WriteRecord { account: accounts[1].key, data: next@.encoding() },
    ]);
    Ok(effects)
}

} // verus!
