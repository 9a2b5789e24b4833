//! The life of a subscription: begun, renewed period by period, cancelled.

use vstd::prelude::*;
use crate::address::Address;
use crate::error::PaymentError;
use crate::state::{SubscriptionAccount, SubscriptionRecord, SubscriptionStatus};

verus! {

impl SubscriptionRecord {
    /// The subscription with another end of its period.
    pub open spec fn with_period_end(self, period_end: i64) -> SubscriptionRecord {
        SubscriptionRecord {
            status: self.status,
            owner: self.owner,
            merchant: self.merchant,
            period_start: self.period_start,
            period_end,
            name: self.name,
            data: self.data,
        }
    }

    /// The subscription with another status.
    pub open spec fn with_status(self, status: SubscriptionStatus) -> SubscriptionRecord {
        SubscriptionRecord {
            status,
            owner: self.owner,
            merchant: self.merchant,
            period_start: self.period_start,
            period_end: self.period_end,
            name: self.name,
            data: self.data,
        }
    }

    /// The subscription after `quantity` more periods of `duration` seconds
    /// each were paid for: the periods are multiplied out first and then
    /// added. A negative number of periods is refused as malformed; a
    /// duration that runs backwards, and a product or a sum out of range, as
    /// overflow.
    pub open spec fn renewed(self, quantity: i64, duration: i64) -> Result<
        SubscriptionRecord,
        PaymentError,
    > {
        if quantity < 0 {
            Err(PaymentError::MalformedInstruction)
        } else if duration < 0 || quantity * duration > i64::MAX || self.period_end + quantity
            * duration > i64::MAX {
            Err(PaymentError::ArithmeticOverflow)
        } else {
            Ok(self.with_period_end((self.period_end + quantity * duration) as i64))
        }
    }

    /// Whether `now` lies in the trial of the subscription: before its start
    /// plus `trial` seconds. A trial that runs backwards, and a sum out of
    /// range, are refused as overflow.
    pub open spec fn in_trial(self, trial: i64, now: i64) -> Result<bool, PaymentError> {
        if trial < 0 || self.period_start + trial > i64::MAX {
            Err(PaymentError::ArithmeticOverflow)
        } else {
            Ok(now < self.period_start + trial)
        }
    }

    /// The subscription after it was cancelled. Cancelled in its trial, it
    /// ends where it began, as if it had never run.
    pub open spec fn cancelled(self, in_trial: bool) -> SubscriptionRecord {
        if in_trial {
            self.with_status(SubscriptionStatus::Cancelled).with_period_end(self.period_start)
        } else {
            self.with_status(SubscriptionStatus::Cancelled)
        }
    }
}

/// The record of a subscription that begins at `now` and runs for `duration`
/// seconds. A duration that runs backwards, and an end out of range, are
/// refused as overflow.
pub open spec fn spec_begin(
    owner: Address,
    merchant: Address,
    name: Seq<char>,
    data: Seq<char>,
    now: i64,
    duration: i64,
) -> Result<SubscriptionRecord, PaymentError> {
    if duration < 0 || now + duration > i64::MAX {
        Err(PaymentError::ArithmeticOverflow)
    } else {
        Ok(
            SubscriptionRecord {
                status: SubscriptionStatus::Initialized,
                owner: owner@,
                merchant: merchant@,
                period_start: now,
                period_end: (now + duration) as i64,
                name,
                data,
            },
        )
    }
}

impl SubscriptionAccount {
    /// The record of a subscription that begins at `now`.
    pub fn begin(
        owner: Address,
        merchant: Address,
        name: String,
        data: String,
        now: i64,
        duration: i64,
    ) -> (subscription: Result<SubscriptionAccount, PaymentError>)
        ensures
            match subscription {
                Ok(account) => spec_begin(owner, merchant, name@, data@, now, duration) == Ok::<
                    SubscriptionRecord,
                    PaymentError,
                >(account@) && account@.valid(),
                Err(e) => spec_begin(owner, merchant, name@, data@, now, duration) == Err::<
                    SubscriptionRecord,
                    PaymentError,
                >(e),
            },
    {
        if duration < 0 {
            return Err(PaymentError::ArithmeticOverflow);
        }
        let period_end = match now.checked_add(duration) {
            Some(end) => end,
            None => {
                return Err(PaymentError::ArithmeticOverflow);
            },
        };
        Ok(
            SubscriptionAccount {
                status: SubscriptionStatus::Initialized,
                owner,
                merchant,
                period_start: now,
                period_end,
                name,
                data,
            },
        )
    }

    /// The subscription after `quantity` more periods of `duration` seconds
    /// each were paid for.
    pub fn renewed(self, quantity: i64, duration: i64) -> (next: Result<
        SubscriptionAccount,
        PaymentError,
    >)
        ensures
            match next {
                Ok(account) => self@.renewed(quantity, duration) == Ok::<
                    SubscriptionRecord,
                    PaymentError,
                >(account@),
                Err(e) => self@.renewed(quantity, duration) == Err::<
                    SubscriptionRecord,
                    PaymentError,
                >(e),
            },
    {
        if quantity < 0 {
            return Err(PaymentError::MalformedInstruction);
        }
        if duration < 0 {
            return Err(PaymentError::ArithmeticOverflow);
        }
        assert(quantity * duration >= 0) by (nonlinear_arith)
            requires
                quantity >= 0,
                duration >= 0,
        ;
        let extension = match quantity.checked_mul(duration) {
            Some(product) => product,
            None => {
                return Err(PaymentError::ArithmeticOverflow);
            },
        };
        let period_end = match self.period_end.checked_add(extension) {
            Some(end) => end,
            None => {
                return Err(PaymentError::ArithmeticOverflow);
            },
        };
        let mut account = self;
        account.period_end = period_end;
        Ok(account)
    }

    /// Whether `now` lies in the trial of the subscription.
    pub fn in_trial(&self, trial: i64, now: i64) -> (answer: Result<bool, PaymentError>)
        ensures
            answer == self@.in_trial(trial, now),
    {
        if trial < 0 {
            return Err(PaymentError::ArithmeticOverflow);
        }
        match self.period_start.checked_add(trial) {
            Some(trial_end) => Ok(now < trial_end),
            None => Err(PaymentError::ArithmeticOverflow),
        }
    }

    /// The subscription after it was cancelled.
    pub fn cancelled(self, in_trial: bool) -> (next: SubscriptionAccount)
        ensures
            next@ == self@.cancelled(in_trial),
    {
        let mut account = self;
        account.status = SubscriptionStatus::Cancelled;
        if in_trial {
            account.period_end = account.period_start;
        }
        account
    }
}

/// A period never ends before it begins: what begins, is renewed or is
/// cancelled is a valid subscription again.
pub proof fn lemma_period_stays_valid(
    subscription: SubscriptionRecord,
    quantity: i64,
    duration: i64,
    in_trial: bool,
)
    requires
        subscription.valid(),
    ensures
        subscription.renewed(quantity, duration) matches Ok(next) ==> next.valid()
            && next.period_end >= subscription.period_end,
        subscription.cancelled(in_trial).valid(),
{
    if quantity >= 0 && duration >= 0 {
        assert(quantity * duration >= 0) by (nonlinear_arith)
            requires
                quantity >= 0,
                duration >= 0,
        ;
    }
}

/// A renewal extends the period by exactly the periods that were paid for.
pub proof fn lemma_renewal_extends(subscription: SubscriptionRecord, quantity: i64, duration: i64)
    ensures
        subscription.renewed(quantity, duration) matches Ok(next) ==> next.period_end
            - subscription.period_end == quantity * duration,
{
}

} // verus!
