//! What the operations share.

use vstd::prelude::*;
use crate::account::{effects_view, push_effect, Effect, EffectView};
use crate::address::Address;
use crate::error::PaymentError;

verus! {

/// The outcome of an operation: its effects in order, or the error that
/// rejects it.
pub type Outcome = Result<Seq<EffectView>, PaymentError>;

/// Whether what an operation answered is the given outcome.
pub open spec fn answers(answer: Result<Vec<Effect>, PaymentError>, outcome: Outcome) -> bool {
    match answer {
        Ok(effects) => outcome == Ok::<Seq<EffectView>, PaymentError>(effects_view(effects@)),
        Err(e) => outcome == Err::<Seq<EffectView>, PaymentError>(e),
    }
}

/// The creation of an account for a record of `size` bytes, where the
/// account has to be created.
pub open spec fn creation(
    create: bool,
    payer: Address,
    new_account: Address,
    size: nat,
    owner: Address,
) -> Seq<EffectView> {
    if create {
        seq![EffectView::CreateAccount { payer, new_account, size: size as u64, owner }]
    } else {
        Seq::empty()
    }
}

/// Adds the creation of an account for a record to a list of effects, where
/// the account has to be created.
pub fn push_creation(
    effects: &mut Vec<Effect>,
    create: bool,
    payer: Address,
    new_account: Address,
    record: &Vec<u8>,
    owner: Address,
)
    ensures
        effects_view(final(effects)@) == effects_view(old(effects)@) + creation(
            create,
            payer,
            new_account,
            record@.len(),
            owner,
        ),
{
    if create {
        push_effect(
            effects,
            Effect::CreateAccount { payer, new_account, size: record.len() as u64, owner },
        );
        assert(effects_view(effects@) =~= effects_view(old(effects)@) + creation(
            create,
            payer,
            new_account,
            record@.len(),
            owner,
        ));
    } else {
        assert(effects_view(effects@) =~= effects_view(old(effects)@) + creation(
            create,
            payer,
            new_account,
            record@.len(),
            owner,
        ));
    }
}

} // verus!
