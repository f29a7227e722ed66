use bet_settlement::bet::Bet;
use bet_settlement::envelope::InstructionEntry;
use bet_settlement::errors::ResolveError;
use bet_settlement::ledger::LedgerState;

const PRIMITIVE_ID: [u8; 32] = [0xED; 32];
const HOUSE_KEY: [u8; 32] = [0x11; 32];
const PLAYER: [u8; 32] = [0x22; 32];

// SHA-256 digests of these signatures reduce to outcome 26 (a win against
// roll 40) and outcome 72 (a loss against roll 40).
const WINNING_SIG: [u8; 64] = [2; 64];
const LOSING_SIG: [u8; 64] = [0; 64];

fn sample_bet() -> Bet {
    Bet {
        seed: 7,
        player: PLAYER,
        amount: 1_000_000,
        roll: 40,
        bump: 254,
    }
}

fn signed_envelope(sig: &[u8; 64], bet: &Bet) -> Vec<InstructionEntry> {
    let message = bet.encode();
    let mut d = vec![0u8; 112 + message.len()];
    d[0] = 1;
    d[2..4].copy_from_slice(&48u16.to_le_bytes());
    d[6..8].copy_from_slice(&16u16.to_le_bytes());
    d[10..12].copy_from_slice(&112u16.to_le_bytes());
    d[12..14].copy_from_slice(&(message.len() as u16).to_le_bytes());
    d[16..48].copy_from_slice(&HOUSE_KEY);
    d[48..112].copy_from_slice(sig);
    d[112..].copy_from_slice(&message);
    vec![InstructionEntry {
        program_id: PRIMITIVE_ID,
        account_count: 0,
        data: d,
    }]
}

#[test]
fn winning_resolution_pays_and_closes() {
    let mut ledger = LedgerState::new(10_000_000);
    assert!(ledger.place_bet(sample_bet()));
    let entries = signed_envelope(&WINNING_SIG, &sample_bet());
    let result = ledger.resolve_bet(7, &WINNING_SIG, &entries, &HOUSE_KEY, &PRIMITIVE_ID);
    assert_eq!(result, Ok(Some(2_500_000)));
    assert_eq!(ledger.vault_balance, 7_500_000);
    // The record is gone: settling the same bet again finds nothing.
    let again = ledger.resolve_bet(7, &WINNING_SIG, &entries, &HOUSE_KEY, &PRIMITIVE_ID);
    assert_eq!(again, Err(ResolveError::BetNotFound));
    assert_eq!(ledger.vault_balance, 7_500_000);
}

#[test]
fn losing_resolution_moves_nothing_but_closes() {
    let mut ledger = LedgerState::new(10_000_000);
    assert!(ledger.place_bet(sample_bet()));
    let entries = signed_envelope(&LOSING_SIG, &sample_bet());
    let result = ledger.resolve_bet(7, &LOSING_SIG, &entries, &HOUSE_KEY, &PRIMITIVE_ID);
    assert_eq!(result, Ok(None));
    assert_eq!(ledger.vault_balance, 10_000_000);
    let again = ledger.resolve_bet(7, &LOSING_SIG, &entries, &HOUSE_KEY, &PRIMITIVE_ID);
    assert_eq!(again, Err(ResolveError::BetNotFound));
}

#[test]
fn at_most_one_of_two_attempts_settles() {
    // Two requests race on the same seed: whichever the ledger serializes
    // second observes the record already gone. Exactly one transfer happens.
    let mut ledger = LedgerState::new(10_000_000);
    assert!(ledger.place_bet(sample_bet()));
    let entries = signed_envelope(&WINNING_SIG, &sample_bet());
    let mut transfers: u32 = 0;
    for _ in 0..2 {
        match ledger.resolve_bet(7, &WINNING_SIG, &entries, &HOUSE_KEY, &PRIMITIVE_ID) {
            Ok(Some(_)) => transfers += 1,
            Ok(None) => panic!("a winning bet must pay"),
            Err(e) => assert_eq!(e, ResolveError::BetNotFound),
        }
    }
    assert_eq!(transfers, 1);
    assert_eq!(ledger.vault_balance, 7_500_000);
}

#[test]
fn failed_transfer_leaves_the_bet_open() {
    let mut ledger = LedgerState::new(1_000);
    assert!(ledger.place_bet(sample_bet()));
    let entries = signed_envelope(&WINNING_SIG, &sample_bet());
    let result = ledger.resolve_bet(7, &WINNING_SIG, &entries, &HOUSE_KEY, &PRIMITIVE_ID);
    assert_eq!(result, Err(ResolveError::InsufficientVaultBalance));
    assert_eq!(ledger.vault_balance, 1_000);
    // The record survived, so a corrected attempt can still settle it.
    ledger.vault_balance = 10_000_000;
    let again = ledger.resolve_bet(7, &WINNING_SIG, &entries, &HOUSE_KEY, &PRIMITIVE_ID);
    assert_eq!(again, Ok(Some(2_500_000)));
}

#[test]
fn bad_proof_aborts_before_any_mutation() {
    let mut ledger = LedgerState::new(10_000_000);
    assert!(ledger.place_bet(sample_bet()));
    // The envelope attests to a different signature than the one supplied.
    let entries = signed_envelope(&LOSING_SIG, &sample_bet());
    let result = ledger.resolve_bet(7, &WINNING_SIG, &entries, &HOUSE_KEY, &PRIMITIVE_ID);
    assert_eq!(result, Err(ResolveError::SignatureMismatch));
    assert_eq!(ledger.vault_balance, 10_000_000);
    // Still open: a well-formed attempt settles it.
    let good = signed_envelope(&WINNING_SIG, &sample_bet());
    assert_eq!(
        ledger.resolve_bet(7, &WINNING_SIG, &good, &HOUSE_KEY, &PRIMITIVE_ID),
        Ok(Some(2_500_000))
    );
}

#[test]
fn placement_refuses_a_taken_seed() {
    let mut ledger = LedgerState::new(0);
    assert!(ledger.place_bet(sample_bet()));
    let mut other = sample_bet();
    other.amount = 5;
    assert!(!ledger.place_bet(other));
}

#[test]
fn resolutions_of_distinct_seeds_are_independent() {
    let mut ledger = LedgerState::new(10_000_000);
    let mut second = sample_bet();
    second.seed = 8;
    assert!(ledger.place_bet(sample_bet()));
    assert!(ledger.place_bet(second));
    let entries = signed_envelope(&WINNING_SIG, &sample_bet());
    assert_eq!(
        ledger.resolve_bet(7, &WINNING_SIG, &entries, &HOUSE_KEY, &PRIMITIVE_ID),
        Ok(Some(2_500_000))
    );
    // The other bet is still open under its own seed.
    let second_entries = signed_envelope(&WINNING_SIG, &second);
    assert_eq!(
        ledger.resolve_bet(8, &WINNING_SIG, &second_entries, &HOUSE_KEY, &PRIMITIVE_ID),
        Ok(Some(2_500_000))
    );
}
