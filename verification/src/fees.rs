//! What a merchant is charged for an order, and who receives it.

use vstd::prelude::*;
use crate::error::PaymentError;

verus! {

/// The number of basis points in a whole.
pub const BASIS_POINTS: u64 = 10_000;

/// The larger of the requested fee and the floor.
pub open spec fn spec_enforce_minimum(requested_fee: u64, min_fee: u64) -> u64 {
    if requested_fee >= min_fee {
        requested_fee
    } else {
        min_fee
    }
}

/// The fee that a merchant is charged when it asks for `requested_fee`: the
/// larger of that and the floor.
pub fn enforce_minimum(requested_fee: u64, min_fee: u64) -> (fee: u64)
    ensures
        fee == spec_enforce_minimum(requested_fee, min_fee),
{
    if requested_fee >= min_fee {
        requested_fee
    } else {
        min_fee
    }
}

/// The sponsor's part of a fee: its share in basis points, rounded down.
pub open spec fn sponsor_part(total_fee: u64, sponsor_share_bp: u64) -> int {
    (total_fee * sponsor_share_bp) / (BASIS_POINTS as int)
}

/// The two parts of a fee, the program owner's first. The sponsor receives
/// its share rounded down and the program owner the rest, so that what is
/// lost in the division stays with the program owner. A share of more than
/// the whole fee leaves nothing to subtract from and is refused.
pub open spec fn spec_split(total_fee: u64, sponsor_share_bp: u64) -> Result<
    (u64, u64),
    PaymentError,
> {
    let sponsor_fee = sponsor_part(total_fee, sponsor_share_bp);
    if sponsor_fee <= total_fee {
        Ok(((total_fee - sponsor_fee) as u64, sponsor_fee as u64))
    } else {
        Err(PaymentError::ArithmeticOverflow)
    }
}

/// Splits a fee between the program owner and the sponsor.
pub fn split(total_fee: u64, sponsor_share_bp: u64) -> (parts: Result<(u64, u64), PaymentError>)
    ensures
        parts == spec_split(total_fee, sponsor_share_bp),
        parts matches Ok((owner_fee, sponsor_fee)) ==> owner_fee + sponsor_fee == total_fee,
{
    assert(total_fee * sponsor_share_bp <= 0xffff_ffff_ffff_ffff * 0xffff_ffff_ffff_ffff)
        by (nonlinear_arith)
        requires
            total_fee <= 0xffff_ffff_ffff_ffff,
            sponsor_share_bp <= 0xffff_ffff_ffff_ffff,
    ;
    let product: u128 = (total_fee as u128) * (sponsor_share_bp as u128);
    let sponsor_fee: u128 = product / (BASIS_POINTS as u128);
    if sponsor_fee <= total_fee as u128 {
        let sponsor_fee = sponsor_fee as u64;
        Ok((total_fee - sponsor_fee, sponsor_fee))
    } else {
        Err(PaymentError::ArithmeticOverflow)
    }
}

/// The parts of a split add up to the fee, whatever the fee and the share.
pub proof fn lemma_split_adds_up(total_fee: u64, sponsor_share_bp: u64)
    ensures
        spec_split(total_fee, sponsor_share_bp) matches Ok((owner_fee, sponsor_fee)) ==> owner_fee
            + sponsor_fee == total_fee,
{
}

/// A share of no more than the whole can always be split off.
pub proof fn lemma_split_succeeds(total_fee: u64, sponsor_share_bp: u64)
    requires
        sponsor_share_bp <= BASIS_POINTS,
    ensures
        spec_split(total_fee, sponsor_share_bp).is_ok(),
{
    assert(total_fee * sponsor_share_bp <= total_fee * 10_000) by (nonlinear_arith)
        requires
            sponsor_share_bp <= 10_000,
    ;
}

/// The enforced fee is never below the floor and never below what was asked.
pub proof fn lemma_minimum_holds(requested_fee: u64, min_fee: u64)
    ensures
        spec_enforce_minimum(requested_fee, min_fee) >= min_fee,
        spec_enforce_minimum(requested_fee, min_fee) >= requested_fee,
        spec_enforce_minimum(requested_fee, min_fee) == requested_fee
            || spec_enforce_minimum(requested_fee, min_fee) == min_fee,
{
}

} // verus!
