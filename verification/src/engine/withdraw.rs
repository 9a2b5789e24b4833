//! Withdrawal: the payment of an order is released to the merchant.

use vstd::prelude::*;
use crate::account::{
    effects_view, read_token_account, unpacked_token_account, AccountInfo, Effect, EffectView,
};
use crate::address::{token_program_bytes, token_program_id, Address};
use crate::config::Config;
use crate::documents::{is_linked, linked, load_package, package_in};
use crate::engine::common::{answers, Outcome};
use crate::error::PaymentError;
use crate::state::{
    lemma_decoded_order_fits, lemma_order_round_trip, OrderAccount, OrderRecord, OrderStatus,
};
use crate::validator::{
    authority_of, check_authority, check_escrow, check_shape, escrow_of, lemma_shape_bounds,
    lemma_shape_depends_on_flags, load_merchant, load_order, load_subscription, matches_derived,
    merchant_in, order_in, shape_ok, subscription_in, Operation,
};

verus! {

/// Whether the subscription that comes with a withdrawal lets the payment
/// go. Without a subscription nothing stands in the way. With one, the order
/// has to be the one that paid for it, and the subscription has to be out of
/// its trial: until then the buyer can still ask for the payment back.
pub open spec fn subscription_gate(
    program_id: Address,
    accounts: Seq<AccountInfo>,
    order: OrderRecord,
    now: i64,
) -> Result<(), PaymentError> {
    if accounts.len() != 8 {
        Ok(())
    } else {
        match subscription_in(accounts[7], program_id) {
            Ok(subscription) => {
                if !linked(order.data, accounts[7].key@) {
                    Err(PaymentError::InvalidSubscriptionLink)
                } else {
                    match package_in(subscription.data) {
                        Some(package) => match subscription.in_trial(package.trial, now) {
                            Ok(in_trial) => if in_trial {
                                Err(PaymentError::InvalidOrderStatus)
                            } else {
                                Ok(())
                            },
                            Err(e) => Err(e),
                        },
                        None => Err(PaymentError::CorruptAccountData),
                    }
                }
            },
            Err(e) => Err(e),
        }
    }
}

/// Whether the subscription that comes with a withdrawal lets the payment go.
pub fn check_subscription_gate(
    program_id: &Address,
    accounts: &Vec<AccountInfo>,
    order: &OrderAccount,
    now: i64,
) -> (checked: Result<(), PaymentError>)
    ensures
        checked == subscription_gate(*program_id, accounts@, order@, now),
{
    if accounts.len() != 8 {
        return Ok(());
    }
    let subscription = match load_subscription(&accounts[7], program_id) {
        Ok(record) => record,
        Err(e) => {
            return Err(e);
        },
    };
    if !is_linked(order.data.as_str(), &accounts[7].key) {
        return Err(PaymentError::InvalidSubscriptionLink);
    }
    let package = match load_package(subscription.data.as_str()) {
        Some(found) => found,
        None => {
            return Err(PaymentError::CorruptAccountData);
        },
    };
    match subscription.in_trial(package.trial, now) {
        Ok(in_trial) => if in_trial {
            Err(PaymentError::InvalidOrderStatus)
        } else {
            Ok(())
        },
        Err(e) => Err(e),
    }
}

/// What a withdrawal comes to.
///
/// Seven or eight accounts come with it: who asks, signing; the order
/// account, writable; the merchant account; the escrow token account,
/// writable; the merchant's token account, writable; the program's
/// authority; the token program; and, if the order paid for a subscription,
/// the subscription account. The order has to be the merchant's, the escrow
/// account the order's own, and the token account that receives the payment
/// the merchant owner's. Only a paid order is withdrawn: the whole balance
/// in escrow moves, and the order becomes withdrawn.
pub open spec fn withdraw_outcome(
    config: Config,
    program_id: Address,
    accounts: Seq<AccountInfo>,
    now: i64,
) -> Outcome {
    if !shape_ok(Operation::Withdraw, accounts) {
        Err(PaymentError::MalformedInstruction)
    } else if accounts[6].key@ != token_program_bytes() {
        Err(PaymentError::AddressMismatch)
    } else if !matches_derived(accounts[5].key@, authority_of(config, program_id)) {
        Err(PaymentError::AddressMismatch)
    } else {
        match order_in(accounts[1], program_id) {
            Ok(order) => match merchant_in(accounts[2], program_id) {
                Ok(merchant) => {
                    if order.merchant != accounts[2].key@ || order.token != accounts[3].key@ {
                        Err(PaymentError::AddressMismatch)
                    } else if !matches_derived(
                        accounts[3].key@,
                        escrow_of(program_id, accounts[1].key@, order.mint),
                    ) {
                        Err(PaymentError::AddressMismatch)
                    } else {
                        match (
                            unpacked_token_account(accounts[3].data@),
                            unpacked_token_account(accounts[4].data@),
                        ) {
                            (Some(escrow), Some(destination)) => {
                                if destination.1 != merchant.owner {
                                    Err(PaymentError::AddressMismatch)
                                } else {
                                    match subscription_gate(program_id, accounts, order, now) {
                                        Ok(()) => match order.withdrawn() {
                                            Ok(next) => Ok(
                                                seq![
                                                    EffectView::TransferTokens {
                                                        from: accounts[3].key,
                                                        to: accounts[4].key,
                                                        authority: accounts[5].key,
                                                        amount: escrow.2,
                                                    },
                                                    EffectView::WriteRecord {
                                                        account: accounts[1].key,
                                                        data: next.encoding(),
                                                    },
                                                ],
                                            ),
                                            Err(e) => Err(e),
                                        },
                                        Err(e) => Err(e),
                                    }
                                }
                            },
                            _ => Err(PaymentError::CorruptAccountData),
                        }
                    }
                },
                Err(e) => Err(e),
            },
            Err(e) => Err(e),
        }
    }
}

/// Releases the payment of an order to the merchant.
pub fn process_withdraw(
    config: &Config,
    program_id: &Address,
    accounts: &Vec<AccountInfo>,
    now: i64,
) -> (answer: Result<Vec<Effect>, PaymentError>)
    ensures
        answers(answer, withdraw_outcome(*config, *program_id, accounts@, now)),
{
    match check_shape(Operation::Withdraw, accounts) {
        Ok(()) => {},
        Err(e) => {
            return Err(e);
        },
    }
    if !accounts[6].key.same_as(&token_program_id()) {
        return Err(PaymentError::AddressMismatch);
    }
    match check_authority(config, program_id, &accounts[5].key) {
        Ok(()) => {},
        Err(e) => {
            return Err(e);
        },
    }
    let order = match load_order(&accounts[1], program_id) {
        Ok(record) => record,
        Err(e) => {
            return Err(e);
        },
    };
    let merchant = match load_merchant(&accounts[2], program_id) {
        Ok(record) => record,
        Err(e) => {
            return Err(e);
        },
    };
    if !order.merchant.same_as(&accounts[2].key) || !order.token.same_as(&accounts[3].key) {
        return Err(PaymentError::AddressMismatch);
    }
    match check_escrow(program_id, &accounts[1].key, &order.mint, &accounts[3].key) {
        Ok(()) => {},
        Err(e) => {
            return Err(e);
        },
    }
    let escrow = read_token_account(accounts[3].data.as_slice());
    let destination = read_token_account(accounts[4].data.as_slice());
    let (escrow, destination) = match (escrow, destination) {
        (Some(escrow), Some(destination)) => (escrow, destination),
        _ => {
            return Err(PaymentError::CorruptAccountData);
        },
    };
    if !destination.owner.same_as(&merchant.owner) {
        return Err(PaymentError::AddressMismatch);
    }
    match check_subscription_gate(program_id, accounts, &order, now) {
        Ok(()) => {},
        Err(e) => {
            return Err(e);
        },
    }
    proof {
        lemma_decoded_order_fits(accounts@[1].data@);
    }
    let next = match order.withdrawn() {
        Ok(next) => next,
        Err(e) => {
            return Err(e);
        },
    };
    let bytes = next.pack();
    let mut effects: Vec<Effect> = Vec::new();
    effects.push(
        Effect::TransferTokens {
            from: accounts[3].key,
            to: accounts[4].key,
            authority: accounts[5].key,
            amount: escrow.amount,
        },
    );
    effects.push(Effect::WriteRecord { account: accounts[1].key, data: bytes });
    assert(effects_view(effects@) =~= seq![
        EffectView::TransferTokens {
            from: accounts[3].key,
            to: accounts[4].key,
            authority: accounts[5].key,
            amount: escrow.amount,
        },
        EffectView::WriteRecord { account: accounts[1].key, data: next@.encoding() },
    ]);
    Ok(effects)
}

/// An order that is not paid is never withdrawn: whatever else holds, the
/// withdrawal of an order that is initialized, withdrawn or cancelled is
/// rejected.
pub proof fn lemma_only_paid_orders_are_withdrawn(
    config: Config,
    program_id: Address,
    accounts: Seq<AccountInfo>,
    now: i64,
)
    ensures
        withdraw_outcome(config, program_id, accounts, now).is_ok() ==> (order_in(
            accounts[1],
            program_id,
        ) matches Ok(order) && order.status == OrderStatus::Paid),
{
}

/// Whether `after` are the accounts of a withdrawal as they stand once the
/// withdrawal was applied: the order account holds the bytes that were
/// written; the two token accounts hold other bytes, as the tokens moved;
/// nothing else changed.
#[verifier::opaque]
pub open spec fn after_withdrawal(
    before: Seq<AccountInfo>,
    after: Seq<AccountInfo>,
    written: Seq<u8>,
) -> bool {
    &&& after.len() == before.len()
    &&& forall|i: int| 0 <= i < before.len() ==> (#[trigger] after[i]).key == before[i].key
    &&& forall|i: int| 0 <= i < before.len() ==> (#[trigger] after[i]).owner == before[i].owner
    &&& forall|i: int|
        0 <= i < before.len() ==> (#[trigger] after[i]).is_signer == before[i].is_signer
    &&& forall|i: int|
        0 <= i < before.len() ==> (#[trigger] after[i]).is_writable == before[i].is_writable
    &&& forall|i: int|
        0 <= i < before.len() && i != 1 && i != 3 && i != 4 ==> (#[trigger] after[i]).data@
            == before[i].data@
    &&& after.len() > 1 ==> after[1].data@ == written
}

/// Whether two accounts agree in everything but their bytes and balance.
pub open spec fn same_account(a: AccountInfo, b: AccountInfo) -> bool {
    a.key == b.key && a.owner == b.owner && a.is_signer == b.is_signer && a.is_writable
        == b.is_writable
}

/// What an applied withdrawal leaves of its accounts, place by place.
proof fn lemma_accounts_after_withdrawal(
    before: Seq<AccountInfo>,
    after: Seq<AccountInfo>,
    written: Seq<u8>,
)
    requires
        shape_ok(Operation::Withdraw, before),
        after_withdrawal(before, after, written),
    ensures
        shape_ok(Operation::Withdraw, after),
        after.len() == before.len(),
        7 <= before.len() <= 8,
        same_account(after[1], before[1]) && after[1].data@ == written,
        same_account(after[2], before[2]) && after[2].data@ == before[2].data@,
        same_account(after[3], before[3]),
        same_account(after[4], before[4]),
        same_account(after[5], before[5]),
        same_account(after[6], before[6]),
        before.len() == 8 ==> same_account(after[7], before[7]) && after[7].data@
            == before[7].data@,
{
    reveal(after_withdrawal);
    lemma_shape_bounds(Operation::Withdraw, before);
    lemma_shape_depends_on_flags(Operation::Withdraw, before, after);
    assert(same_account(after[1], before[1]));
    assert(same_account(after[2], before[2]));
    assert(same_account(after[3], before[3]));
    assert(same_account(after[4], before[4]));
    assert(same_account(after[5], before[5]));
    assert(same_account(after[6], before[6]));
    if before.len() == 8 {
        assert(same_account(after[7], before[7]));
    }
}

/// Withdrawing twice fails the second time: once a withdrawal was applied,
/// the same withdrawal at the same time or later is rejected with
/// `InvalidOrderStatus`, as long as the two token accounts are still token
/// accounts and the one that received the payment is still the merchant
/// owner's.
#[verifier::rlimit(40)]
pub proof fn lemma_withdraw_twice_fails(
    config: Config,
    program_id: Address,
    before: Seq<AccountInfo>,
    after: Seq<AccountInfo>,
    now: i64,
    later: i64,
)
    requires
        withdraw_outcome(config, program_id, before, now) matches Ok(effects) && (
        effects[1] matches EffectView::WriteRecord { data, .. } && after_withdrawal(
            before,
            after,
            data,
        )),
        now <= later,
        unpacked_token_account(after[3].data@).is_some(),
        unpacked_token_account(after[4].data@) matches Some(destination) && (merchant_in(
            before[2],
            program_id,
        ) matches Ok(merchant) && destination.1 == merchant.owner),
    ensures
        withdraw_outcome(config, program_id, after, later) == Err::<
            Seq<EffectView>,
            PaymentError,
        >(PaymentError::InvalidOrderStatus),
{
    let order = order_in(before[1], program_id).unwrap();
    let next = order.withdrawn().unwrap();
    lemma_accounts_after_withdrawal(before, after, next.encoding());
    lemma_decoded_order_fits(before[1].data@);
    lemma_order_round_trip(next);
    assert(order_in(after[1], program_id) == Ok::<OrderRecord, PaymentError>(next));
    assert(merchant_in(after[2], program_id) == merchant_in(before[2], program_id));
    assert(next.withdrawn() == Err::<OrderRecord, PaymentError>(
        PaymentError::InvalidOrderStatus,
    ));
    if before.len() == 8 {
        assert(subscription_in(after[7], program_id) == subscription_in(before[7], program_id));
    }
    assert(subscription_gate(program_id, after, next, later) == Ok::<(), PaymentError>(()));
}

} // verus!
