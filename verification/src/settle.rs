use vstd::prelude::*;
use crate::errors::ResolveError;

verus! {

/// The payout owed on a win: the wager scaled by 100 over the chosen
/// threshold, rounded down.
pub open spec fn spec_payout(amount: u64, roll: u8) -> int {
    (amount * 100) / (roll as int)
}

/// What settlement yields for an outcome against a bet's threshold and
/// wager: no transfer on a loss; on a win the payout, unless its true value
/// does not fit the native unit width, which is an overflow error.
pub open spec fn spec_settle(outcome: u8, amount: u64, roll: u8) -> Result<Option<u64>, ResolveError> {
    if outcome >= roll {
        Ok(None)
    } else if spec_payout(amount, roll) > u64::MAX {
        Err(ResolveError::Overflow)
    } else {
        Ok(Some(spec_payout(amount, roll) as u64))
    }
}

/// Decides a settled bet: the player wins iff the outcome is strictly below
/// the chosen threshold. On a win the payout is computed in 128-bit
/// intermediate arithmetic, so scaling the wager by 100 never wraps; if the
/// true payout exceeds the native unit width the settlement reports
/// `Overflow` rather than truncate. On a loss there is no transfer at all.
pub fn settle(outcome: u8, amount: u64, roll: u8) -> (r: Result<Option<u64>, ResolveError>)
    ensures
        r == spec_settle(outcome, amount, roll),
{
    if outcome >= roll {
        return Ok(None);
    }
    // outcome < roll rules out roll == 0; the division is guarded anyway.
    if roll == 0 {
        return Err(ResolveError::Overflow);
    }
    let wide: u128 = (amount as u128) * 100;
    let payout: u128 = wide / (roll as u128);
    if payout > u64::MAX as u128 {
        return Err(ResolveError::Overflow);
    }
    Ok(Some(payout as u64))
}

} // verus!
