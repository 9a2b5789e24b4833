//! Cancellation: a subscription ends, and in its trial the payment goes back.

use vstd::prelude::*;
use crate::account::{
    effects_view, read_token_account, unpacked_token_account, AccountInfo, Effect, EffectView,
};
use crate::address::{token_program_bytes, token_program_id, Address};
use crate::config::Config;
use crate::documents::{is_linked, linked, load_package, package_in};
use crate::engine::common::{answers, Outcome};
use crate::error::PaymentError;
use crate::state::{
    lemma_decoded_order_fits, lemma_decoded_subscription_fits, OrderRecord, OrderStatus,
    SubscriptionRecord, SubscriptionStatus,
};
use crate::validator::{
    authority_of, check_authority, check_escrow, check_shape, escrow_of, load_merchant, load_order,
    load_subscription, matches_derived, merchant_in, order_in, shape_ok, subscription_in, Operation,
};

verus! {

/// What a cancellation comes to once the records were read.
///
/// Out of the trial only the subscription changes: it is cancelled, and its
/// period ends when it would have ended. In the trial the order is cancelled
/// with it, the whole balance in escrow goes to the refund account, and the
/// subscription ends where it began.
pub open spec fn end_outcome(
    accounts: Seq<AccountInfo>,
    subscription: SubscriptionRecord,
    order: OrderRecord,
    in_trial: bool,
) -> Outcome {
    if !in_trial {
        Ok(
            seq![
                EffectView::WriteRecord {
                    account: accounts[1].key,
                    data: subscription.cancelled(false).encoding(),
                },
            ],
        )
    } else {
        match order.cancelled() {
            Ok(refunded) => match unpacked_token_account(accounts[4].data@) {
                Some(escrow) => Ok(
                    seq![
                        EffectView::TransferTokens {
                            from: accounts[4].key,
                            to: accounts[5].key,
                            authority: accounts[6].key,
                            amount: escrow.2,
                        },
                        EffectView::WriteRecord {
                            account: accounts[3].key,
                            data: refunded.encoding(),
                        },
                        EffectView::WriteRecord {
                            account: accounts[1].key,
                            data: subscription.cancelled(true).encoding(),
                        },
                    ],
                ),
                None => Err(PaymentError::CorruptAccountData),
            },
            Err(e) => Err(e),
        }
    }
}

/// What a cancellation comes to.
///
/// Eight accounts come with it: the subscriber, signing; the subscription
/// account, writable; the merchant account; the account of the order that
/// paid, writable; the escrow token account, writable; the token account
/// that takes a refund, writable; the program's authority; the token
/// program. Only the subscriber cancels. Subscription and order have to be
/// the merchant's, the order has to name this subscription in its data, and
/// the escrow account has to be the order's own.
pub open spec fn cancel_outcome(
    config: Config,
    program_id: Address,
    accounts: Seq<AccountInfo>,
    now: i64,
) -> Outcome {
    if !shape_ok(Operation::CancelSubscription, accounts) {
        Err(PaymentError::MalformedInstruction)
    } else if accounts[7].key@ != token_program_bytes() {
        Err(PaymentError::AddressMismatch)
    } else if !matches_derived(accounts[6].key@, authority_of(config, program_id)) {
        Err(PaymentError::AddressMismatch)
    } else {
        match subscription_in(accounts[1], program_id) {
            Ok(subscription) => match merchant_in(accounts[2], program_id) {
                Ok(merchant) => match order_in(accounts[3], program_id) {
                    Ok(order) => {
                        if accounts[0].key@ != subscription.owner || subscription.merchant
                            != accounts[2].key@ || order.merchant != accounts[2].key@
                            || order.token != accounts[4].key@ {
                            Err(PaymentError::AddressMismatch)
                        } else if !matches_derived(
                            accounts[4].key@,
                            escrow_of(program_id, accounts[3].key@, order.mint),
                        ) {
                            Err(PaymentError::AddressMismatch)
                        } else if !linked(order.data, accounts[1].key@) {
                            Err(PaymentError::InvalidSubscriptionLink)
                        } else {
                            match package_in(subscription.data) {
                                Some(package) => match subscription.in_trial(package.trial, now) {
                                    Ok(in_trial) => end_outcome(
                                        accounts,
                                        subscription,
                                        order,
                                        in_trial,
                                    ),
                                    Err(e) => Err(e),
                                },
                                None => Err(PaymentError::CorruptAccountData),
                            }
                        }
                    },
                    Err(e) => Err(e),
                },
                Err(e) => Err(e),
            },
            Err(e) => Err(e),
        }
    }
}

/// Cancels a subscription.
#[verifier::rlimit(40)]
pub fn process_cancel_subscription(
    config: &Config,
    program_id: &Address,
    accounts: &Vec<AccountInfo>,
    now: i64,
) -> (answer: Result<Vec<Effect>, PaymentError>)
    ensures
        answers(answer, cancel_outcome(*config, *program_id, accounts@, now)),
{
    match check_shape(Operation::CancelSubscription, accounts) {
        Ok(()) => {},
        Err(e) => {
            return Err(e);
        },
    }
    if !accounts[7].key.same_as(&token_program_id()) {
        return Err(PaymentError::AddressMismatch);
    }
    match check_authority(config, program_id, &accounts[6].key) {
        Ok(()) => {},
        Err(e) => {
            return Err(e);
        },
    }
    let subscription = match load_subscription(&accounts[1], program_id) {
        Ok(record) => record,
        Err(e) => {
            return Err(e);
        },
    };
    let merchant = match load_merchant(&accounts[2], program_id) {
        Ok(record) => record,
        Err(e) => {
            return Err(e);
        },
    };
    let order = match load_order(&accounts[3], program_id) {
        Ok(record) => record,
        Err(e) => {
            return Err(e);
        },
    };
    if !accounts[0].key.same_as(&subscription.owner) || !subscription.merchant.same_as(
        &accounts[2].key,
    ) || !order.merchant.same_as(&accounts[2].key) || !order.token.same_as(&accounts[4].key) {
        return Err(PaymentError::AddressMismatch);
    }
    match check_escrow(program_id, &accounts[3].key, &order.mint, &accounts[4].key) {
        Ok(()) => {},
        Err(e) => {
            return Err(e);
        },
    }
    if !is_linked(order.data.as_str(), &accounts[1].key) {
        return Err(PaymentError::InvalidSubscriptionLink);
    }
    let package = match load_package(subscription.data.as_str()) {
        Some(found) => found,
        None => {
            return Err(PaymentError::CorruptAccountData);
        },
    };
    let in_trial = match subscription.in_trial(package.trial, now) {
        Ok(answer) => answer,
        Err(e) => {
            return Err(e);
        },
    };
    proof {
        lemma_decoded_subscription_fits(accounts@[1].data@);
        lemma_decoded_order_fits(accounts@[3].data@);
    }
    let mut effects: Vec<Effect> = Vec::new();
    if !in_trial {
        let ended = subscription.cancelled(false);
        let bytes = ended.pack();
        effects.push(Effect::WriteRecord { account: accounts[1].key, data: bytes });
        assert(effects_view(effects@) =~= seq![
            EffectView::WriteRecord { account: accounts[1].key, data: ended@.encoding() },
        ]);
        return Ok(effects);
    }
    let refunded = match order.cancelled() {
        Ok(next) => next,
        Err(e) => {
            return Err(e);
        },
    };
    let escrow = match read_token_account(accounts[4].data.as_slice()) {
        Some(token) => token,
        None => {
            return Err(PaymentError::CorruptAccountData);
        },
    };
    let ended = subscription.cancelled(true);
    let order_bytes = refunded.pack();
    let subscription_bytes = ended.pack();
    effects.push(
        Effect::TransferTokens {
            from: accounts[4].key,
            to: accounts[5].key,
            authority: accounts[6].key,
            amount: escrow.amount,
        },
    );
    effects.push(Effect::WriteRecord { account: accounts[3].key, data: order_bytes });
    effects.push(Effect::WriteRecord { account: accounts[1].key, data: subscription_bytes });
    assert(effects_view(effects@) =~= seq![
        EffectView::TransferTokens {
            from: accounts[4].key,
            to: accounts[5].key,
            authority: accounts[6].key,
            amount: escrow.amount,
        },
        EffectView::WriteRecord { account: accounts[3].key, data: refunded@.encoding() },
        EffectView::WriteRecord { account: accounts[1].key, data: ended@.encoding() },
    ]);
    Ok(effects)
}

/// A cancellation always ends the subscription, and it touches the order
/// only in the trial and only while the order is neither withdrawn nor
/// cancelled: out of the trial nothing but the subscription is written, and
/// in the trial an order that is final already rejects the cancellation with
/// `InvalidOrderStatus`.
pub proof fn lemma_cancellation_respects_final_orders(
    accounts: Seq<AccountInfo>,
    subscription: SubscriptionRecord,
    order: OrderRecord,
    in_trial: bool,
)
    ensures
        !in_trial ==> end_outcome(accounts, subscription, order, in_trial) == Ok::<
            Seq<EffectView>,
            PaymentError,
        >(
            seq![
                EffectView::WriteRecord {
                    account: accounts[1].key,
                    data: subscription.cancelled(false).encoding(),
                },
            ],
        ),
        subscription.cancelled(in_trial).status == SubscriptionStatus::Cancelled,
        in_trial && order.status.spec_is_terminal() ==> end_outcome(
            accounts,
            subscription,
            order,
            in_trial,
        ) == Err::<Seq<EffectView>, PaymentError>(PaymentError::InvalidOrderStatus),
        in_trial && end_outcome(accounts, subscription, order, in_trial).is_ok() ==> (
        order.cancelled() matches Ok(refunded) && refunded.status == OrderStatus::Cancelled
            && subscription.cancelled(true).period_end == subscription.period_start),
{
}

} // verus!
