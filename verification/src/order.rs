//! The life of an order: paid at checkout, then withdrawn by the merchant or
//! cancelled with the subscription that it paid for.

use vstd::prelude::*;
use crate::address::Address;
use crate::error::PaymentError;
use crate::state::{OrderAccount, OrderRecord, OrderStatus};

verus! {

impl OrderRecord {
    /// The order with another status and everything else as it was.
    pub open spec fn with_status(self, status: OrderStatus) -> OrderRecord {
        OrderRecord {
            status,
            merchant: self.merchant,
            mint: self.mint,
            token: self.token,
            payer: self.payer,
            expected_amount: self.expected_amount,
            paid_amount: self.paid_amount,
            order_id: self.order_id,
            secret: self.secret,
            data: self.data,
        }
    }

    /// The order after its payment was released to the merchant. Only a paid
    /// order can be withdrawn.
    pub open spec fn withdrawn(self) -> Result<OrderRecord, PaymentError> {
        if self.status == OrderStatus::Paid {
            Ok(self.with_status(OrderStatus::Withdrawn))
        } else {
            Err(PaymentError::InvalidOrderStatus)
        }
    }

    /// The order after its payment was refunded. Only an order that is
    /// neither withdrawn nor cancelled yet can be cancelled.
    pub open spec fn cancelled(self) -> Result<OrderRecord, PaymentError> {
        if self.status == OrderStatus::Initialized || self.status == OrderStatus::Paid {
            Ok(self.with_status(OrderStatus::Cancelled))
        } else {
            Err(PaymentError::InvalidOrderStatus)
        }
    }
}

/// The record of an order that was paid in full at checkout.
pub open spec fn spec_paid_order(
    merchant: Address,
    mint: Address,
    token: Address,
    payer: Address,
    amount: u64,
    order_id: Seq<char>,
    secret: Seq<char>,
    data: Seq<char>,
) -> OrderRecord {
    OrderRecord {
        status: OrderStatus::Paid,
        merchant: merchant@,
        mint: mint@,
        token: token@,
        payer: payer@,
        expected_amount: amount,
        paid_amount: amount,
        order_id,
        secret,
        data,
    }
}

impl OrderAccount {
    /// The record of an order that was paid in full at checkout: what was
    /// paid is what was owed.
    pub fn paid(
        merchant: Address,
        mint: Address,
        token: Address,
        payer: Address,
        amount: u64,
        order_id: String,
        secret: String,
        data: String,
    ) -> (order: OrderAccount)
        ensures
            order@ == spec_paid_order(
                merchant,
                mint,
                token,
                payer,
                amount,
                order_id@,
                secret@,
                data@,
            ),
    {
        OrderAccount {
            status: OrderStatus::Paid,
            merchant,
            mint,
            token,
            payer,
            expected_amount: amount,
            paid_amount: amount,
            order_id,
            secret,
            data,
        }
    }

    /// The order after its payment was released to the merchant.
    pub fn withdrawn(self) -> (next: Result<OrderAccount, PaymentError>)
        ensures
            match next {
                Ok(order) => self@.withdrawn() == Ok::<OrderRecord, PaymentError>(order@),
                Err(e) => self@.withdrawn() == Err::<OrderRecord, PaymentError>(e),
            },
    {
        match self.status {
            OrderStatus::Paid => {
                let mut order = self;
                order.status = OrderStatus::Withdrawn;
                Ok(order)
            },
            _ => Err(PaymentError::InvalidOrderStatus),
        }
    }

    /// The order after its payment was refunded.
    pub fn cancelled(self) -> (next: Result<OrderAccount, PaymentError>)
        ensures
            match next {
                Ok(order) => self@.cancelled() == Ok::<OrderRecord, PaymentError>(order@),
                Err(e) => self@.cancelled() == Err::<OrderRecord, PaymentError>(e),
            },
    {
        match self.status {
            OrderStatus::Initialized | OrderStatus::Paid => {
                let mut order = self;
                order.status = OrderStatus::Cancelled;
                Ok(order)
            },
            _ => Err(PaymentError::InvalidOrderStatus),
        }
    }
}

/// An order only moves forward: whatever a withdrawal or a cancellation
/// makes of it is a status that its old status may become, and a final one.
pub proof fn lemma_order_moves_forward(order: OrderRecord)
    ensures
        order.withdrawn() matches Ok(next) ==> order.status.spec_may_become(next.status)
            && next.status.spec_is_terminal(),
        order.cancelled() matches Ok(next) ==> order.status.spec_may_become(next.status)
            && next.status.spec_is_terminal(),
{
}

/// A withdrawn or cancelled order never changes again: it may become no
/// other status, and both withdrawing and cancelling it are refused with
/// `InvalidOrderStatus`.
pub proof fn lemma_final_order_stays(order: OrderRecord)
    requires
        order.status.spec_is_terminal(),
    ensures
        forall|next: OrderStatus| !order.status.spec_may_become(next),
        order.withdrawn() == Err::<OrderRecord, PaymentError>(PaymentError::InvalidOrderStatus),
        order.cancelled() == Err::<OrderRecord, PaymentError>(PaymentError::InvalidOrderStatus),
{
}

/// Withdrawing twice fails the second time with `InvalidOrderStatus`.
pub proof fn lemma_second_withdrawal_fails(order: OrderRecord)
    ensures
        order.withdrawn() matches Ok(next) ==> next.withdrawn() == Err::<
            OrderRecord,
            PaymentError,
        >(PaymentError::InvalidOrderStatus),
{
}

} // verus!
