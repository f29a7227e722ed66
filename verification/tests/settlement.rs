use bet_settlement::errors::ResolveError;
use bet_settlement::outcome::derive_outcome;
use bet_settlement::settle::settle;

#[test]
fn outcome_is_deterministic_and_in_range() {
    let sigs: [[u8; 64]; 4] = [[0; 64], [1; 64], [0x5A; 64], [0xFF; 64]];
    for sig in sigs.iter() {
        let first = derive_outcome(sig);
        let second = derive_outcome(sig);
        assert_eq!(first, second);
        assert!(first < 100);
    }
}

#[test]
fn outcome_comes_from_the_digest() {
    // SHA-256 of 64 zero bytes: the two little-endian 128-bit halves of the
    // digest sum (with wraparound) to 72 modulo 100. Were the input handed
    // back in place of its digest, the outcome would be 0.
    assert_eq!(derive_outcome(&[0u8; 64]), 72);
    assert_eq!(derive_outcome(&[2u8; 64]), 26);
}

#[test]
fn winning_payout_values() {
    assert_eq!(settle(10, 1000, 50), Ok(Some(2000)));
    assert_eq!(settle(3, 333, 7), Ok(Some(4757)));
    assert_eq!(settle(12, 1_000_000, 40), Ok(Some(2_500_000)));
}

#[test]
fn loss_yields_no_transfer() {
    assert_eq!(settle(60, 1000, 50), Ok(None));
    assert_eq!(settle(50, 1000, 50), Ok(None));
    assert_eq!(settle(85, 1_000_000, 40), Ok(None));
    assert_eq!(settle(0, 1000, 0), Ok(None));
}

#[test]
fn true_overflow_is_reported_not_truncated() {
    assert_eq!(settle(0, u64::MAX, 1), Err(ResolveError::Overflow));
    assert_eq!(settle(0, u64::MAX / 100 + 1, 1), Err(ResolveError::Overflow));
}

#[test]
fn wide_accumulator_never_spuriously_overflows() {
    // amount * 100 exceeds 64 bits, yet the payout fits: the 128-bit
    // intermediate keeps the computation exact.
    assert_eq!(settle(0, u64::MAX, 100), Ok(Some(u64::MAX)));
    assert_eq!(settle(0, u64::MAX / 100, 1), Ok(Some(u64::MAX / 100 * 100)));
}
