use vstd::prelude::*;
use crate::bet::{spec_encode, Bet};
use crate::envelope::{spec_verify, verify_ed25519_signature, InstructionEntry};
use crate::errors::ResolveError;
use crate::outcome::{derive_outcome, spec_outcome};
use crate::settle::{settle, spec_settle};

verus! {

/// Whether some open bet carries this seed.
pub open spec fn has_bet(bets: Seq<Bet>, seed: u64) -> bool {
    exists|i: int| 0 <= i < bets.len() && bets[i].seed == seed
}

/// The open bet under this seed, if any. Well defined on stores that keep at
/// most one bet per seed.
pub open spec fn spec_lookup(bets: Seq<Bet>, seed: u64) -> Option<Bet> {
    if has_bet(bets, seed) {
        Some(bets[choose|i: int| 0 <= i < bets.len() && bets[i].seed == seed])
    } else {
        None
    }
}

/// The slice of ledger state one resolution touches: the store of open bet
/// records, keyed by seed, and the pooled vault's balance.
pub struct LedgerState {
    /// Open bet records; a well-formed store keeps at most one per seed.
    pub bets: Vec<Bet>,
    /// The pooled escrow balance, in native units.
    pub vault_balance: u64,
}

/// What one resolution attempt decides, given the looked-up bet record, the
/// vault balance, and the caller's envelope: either the new vault balance
/// with the transfer owed to the player, or the error that aborts the
/// attempt with nothing changed.
pub open spec fn spec_resolve(
    bet: Option<Bet>,
    vault: u64,
    sig: Seq<u8>,
    entries: Seq<InstructionEntry>,
    house_key: Seq<u8>,
    primitive_id: Seq<u8>,
) -> Result<(u64, Option<u64>), ResolveError> {
    match bet {
        Option::None => Err(ResolveError::BetNotFound),
        Option::Some(b) => match spec_verify(entries, sig, house_key, spec_encode(b), primitive_id) {
            Result::Err(e) => Err(e),
            Result::Ok(_) => match spec_settle(spec_outcome(sig) as u8, b.amount, b.roll) {
                Result::Err(e) => Err(e),
                Result::Ok(Option::None) => Ok((vault, None)),
                Result::Ok(Option::Some(p)) => if p <= vault {
                    Ok(((vault - p) as u64, Some(p)))
                } else {
                    Err(ResolveError::InsufficientVaultBalance)
                },
            },
        },
    }
}

/// The index of the bet carrying this seed, if any; on a well-formed store
/// it is the only one.
fn find_bet_index(bets: &Vec<Bet>, seed: u64) -> (r: Option<usize>)
    ensures
        match r {
            Some(i) => {
                &&& i < bets@.len()
                &&& bets@[i as int].seed == seed
                &&& forall|j: int| 0 <= j < i ==> bets@[j].seed != seed
            },
            None => forall|j: int| 0 <= j < bets@.len() ==> bets@[j].seed != seed,
        },
{
    let mut idx: usize = 0;
    while idx < bets.len()
        invariant
            idx <= bets@.len(),
            forall|j: int| 0 <= j < idx ==> bets@[j].seed != seed,
        decreases bets@.len() - idx,
    {
        if bets[idx].seed == seed {
            return Some(idx);
        }
        idx = idx + 1;
    }
    None
}

/// Removing the one bet under a seed keeps the store well formed, leaves
/// nothing under that seed, and leaves every other seed's record untouched.
proof fn lemma_remove_unique(bets: Seq<Bet>, idx: int, seed: u64)
    requires
        forall|i: int, j: int| 0 <= i < j < bets.len() ==> bets[i].seed != bets[j].seed,
        0 <= idx < bets.len(),
        bets[idx].seed == seed,
    ensures
        forall|i: int, j: int|
            0 <= i < j < bets.remove(idx).len() ==> bets.remove(idx)[i].seed != bets.remove(idx)[j].seed,
        !has_bet(bets.remove(idx), seed),
        forall|s: u64| s != seed ==> spec_lookup(bets.remove(idx), s) == spec_lookup(bets, s),
{
    bets.remove_ensures(idx);
    let r = bets.remove(idx);
    assert forall|i: int, j: int| 0 <= i < j < r.len() implies r[i].seed != r[j].seed by {
        let oi = if i < idx { i } else { i + 1 };
        let oj = if j < idx { j } else { j + 1 };
        assert(r[i] == bets[oi]);
        assert(r[j] == bets[oj]);
        assert(bets[oi].seed != bets[oj].seed);
    }
    assert forall|k: int| 0 <= k < r.len() implies r[k].seed != seed by {
        let ok = if k < idx { k } else { k + 1 };
        assert(r[k] == bets[ok]);
        if ok < idx {
            assert(bets[ok].seed != bets[idx].seed);
        } else {
            assert(bets[idx].seed != bets[ok].seed);
        }
    }
    assert(!has_bet(r, seed));
    assert forall|s: u64| s != seed implies spec_lookup(r, s) == spec_lookup(bets, s) by {
        if has_bet(bets, s) {
            let i = choose|i: int| 0 <= i < bets.len() && bets[i].seed == s;
            let ri = if i < idx { i } else { i - 1 };
            assert(r[ri] == bets[i]);
            assert(has_bet(r, s));
            let k = choose|k: int| 0 <= k < r.len() && r[k].seed == s;
            if k != ri {
                assert(r[k].seed != r[ri].seed);
            }
            assert(spec_lookup(r, s) == Some(bets[i]));
        } else {
            assert forall|k: int| 0 <= k < r.len() implies r[k].seed != s by {
                let ok = if k < idx { k } else { k + 1 };
                assert(r[k] == bets[ok]);
            }
            assert(!has_bet(r, s));
        }
    }
}

impl LedgerState {
    /// Well-formed: at most one open bet per seed, so a seed identifies its
    /// record and a destructive read settles it at most once.
    pub open spec fn wf(self) -> bool {
        forall|i: int, j: int|
            0 <= i < j < self.bets@.len() ==> self.bets@[i].seed != self.bets@[j].seed
    }

    /// The open bet under a seed, if any.
    pub open spec fn spec_bet(self, seed: u64) -> Option<Bet> {
        spec_lookup(self.bets@, seed)
    }

    /// An empty ledger slice with the given vault balance.
    pub fn new(vault_balance: u64) -> (r: LedgerState)
        ensures
            r.wf(),
            r.vault_balance == vault_balance,
            forall|s: u64| r.spec_bet(s) is None,
    {
        LedgerState { bets: Vec::new(), vault_balance }
    }

    /// Records a bet, as the out-of-scope placement step would: succeeds iff
    /// no open bet carries the seed already, and changes nothing otherwise.
    pub fn place_bet(&mut self, bet: Bet) -> (r: bool)
        requires
            old(self).wf(),
        ensures
            final(self).wf(),
            r == (old(self).spec_bet(bet.seed) is None),
            final(self).vault_balance == old(self).vault_balance,
            if r {
                final(self).spec_bet(bet.seed) == Some(bet)
                    && forall|s: u64| s != bet.seed ==> final(self).spec_bet(s) == old(self).spec_bet(s)
            } else {
                final(self).bets@ == old(self).bets@
            },
    {
        match find_bet_index(&self.bets, bet.seed) {
            Some(_) => {
                proof {
                    assert(has_bet(self.bets@, bet.seed));
                }
                false
            },
            None => {
                let ghost bets0 = self.bets@;
                proof {
                    assert(!has_bet(bets0, bet.seed));
                }
                self.bets.push(bet);
                proof {
                    let bets1 = self.bets@;
                    assert forall|i: int, j: int| 0 <= i < j < bets1.len()
                        implies bets1[i].seed != bets1[j].seed by {
                        if j < bets1.len() - 1 {
                            assert(bets1[i] == bets0[i]);
                            assert(bets1[j] == bets0[j]);
                        } else {
                            assert(bets1[i] == bets0[i]);
                            assert(bets1[j] == bet);
                            assert(bets0[i].seed != bet.seed);
                        }
                    }
                    assert(bets1[bets1.len() - 1] == bet);
                    assert(has_bet(bets1, bet.seed));
                    let k = choose|k: int| 0 <= k < bets1.len() && bets1[k].seed == bet.seed;
                    if k != bets1.len() - 1 {
                        assert(bets1[k].seed != bets1[bets1.len() - 1].seed);
                    }
                    assert(self.spec_bet(bet.seed) == Some(bet));
                    assert forall|s: u64| s != bet.seed
                        implies spec_lookup(bets1, s) == spec_lookup(bets0, s) by {
                        if has_bet(bets0, s) {
                            let i = choose|i: int| 0 <= i < bets0.len() && bets0[i].seed == s;
                            assert(bets1[i] == bets0[i]);
                            assert(has_bet(bets1, s));
                            let m = choose|m: int| 0 <= m < bets1.len() && bets1[m].seed == s;
                            assert(m != bets1.len() - 1);
                            assert(bets1[m] == bets0[m]);
                            if m != i {
                                assert(bets0[m].seed != bets0[i].seed);
                            }
                            assert(spec_lookup(bets1, s) == Some(bets0[i]));
                        } else {
                            assert forall|k2: int| 0 <= k2 < bets1.len()
                                implies bets1[k2].seed != s by {
                                if k2 < bets1.len() - 1 {
                                    assert(bets1[k2] == bets0[k2]);
                                }
                            }
                            assert(!has_bet(bets1, s));
                        }
                    }
                }
                true
            },
        }
    }

    /// Resolves the bet under a seed in one atomic unit: looks the record
    /// up, checks the signature envelope against the bet's canonical
    /// encoding, derives the outcome, computes the payout, debits the vault
    /// on a win, and destroys the record. The returned value is the one
    /// transfer owed to the bet's player, if any. On any error the ledger
    /// slice is exactly as it was: no partial fund movement, no partial bet
    /// mutation, and the record stays available for a corrected attempt.
    pub fn resolve_bet(
        &mut self,
        seed: u64,
        sig: &[u8],
        entries: &Vec<InstructionEntry>,
        house_key: &[u8; 32],
        primitive_id: &[u8; 32],
    ) -> (r: Result<Option<u64>, ResolveError>)
        requires
            old(self).wf(),
        ensures
            final(self).wf(),
            match spec_resolve(
                old(self).spec_bet(seed),
                old(self).vault_balance,
                sig@,
                entries@,
                house_key@,
                primitive_id@,
            ) {
                Result::Ok((new_vault, payout)) => {
                    &&& r == Ok::<Option<u64>, ResolveError>(payout)
                    &&& final(self).vault_balance == new_vault
                    &&& final(self).spec_bet(seed) is None
                    &&& forall|s: u64| s != seed ==> final(self).spec_bet(s) == old(self).spec_bet(s)
                },
                Result::Err(e) => {
                    &&& r == Err::<Option<u64>, ResolveError>(e)
                    &&& final(self).bets@ == old(self).bets@
                    &&& final(self).vault_balance == old(self).vault_balance
                },
            },
    {
        let idx = match find_bet_index(&self.bets, seed) {
            Some(i) => i,
            None => {
                proof {
                    assert(!has_bet(self.bets@, seed));
                }
                return Err(ResolveError::BetNotFound);
            },
        };
        let bet = self.bets[idx];
        proof {
            assert(has_bet(self.bets@, seed));
            let i = choose|i: int| 0 <= i < self.bets@.len() && self.bets@[i].seed == seed;
            if i != idx {
                if i < idx {
                    assert(self.bets@[i].seed != self.bets@[idx as int].seed);
                } else {
                    assert(self.bets@[idx as int].seed != self.bets@[i].seed);
                }
            }
            assert(self.spec_bet(seed) == Some(bet));
        }
        let message = bet.encode();
        match verify_ed25519_signature(entries, sig, house_key, message.as_slice(), primitive_id) {
            Result::Ok(_) => {},
            Result::Err(e) => {
                return Err(e);
            },
        }
        let outcome = derive_outcome(sig);
        proof {
            assert(outcome == spec_outcome(sig@) as u8);
        }
        let settled = match settle(outcome, bet.amount, bet.roll) {
            Result::Ok(p) => p,
            Result::Err(e) => {
                return Err(e);
            },
        };
        match settled {
            Option::None => {
                let ghost bets0 = self.bets@;
                self.bets.remove(idx);
                proof {
                    lemma_remove_unique(bets0, idx as int, seed);
                }
                Ok(None)
            },
            Option::Some(payout) => {
                if payout <= self.vault_balance {
                    self.vault_balance = self.vault_balance - payout;
                    let ghost bets0 = self.bets@;
                    self.bets.remove(idx);
                    proof {
                        lemma_remove_unique(bets0, idx as int, seed);
                    }
                    Ok(Some(payout))
                } else {
                    Err(ResolveError::InsufficientVaultBalance)
                }
            },
        }
    }
}

/// At-most-once law: a successful resolution leaves nothing under the seed,
/// so a later attempt on the same seed decides `BetNotFound` and moves no
/// funds. Two attempts against one bet can therefore never both pay out:
/// whichever runs second sees the record already gone.
pub proof fn lemma_at_most_once(
    after: LedgerState,
    seed: u64,
    sig: Seq<u8>,
    entries: Seq<InstructionEntry>,
    house_key: Seq<u8>,
    primitive_id: Seq<u8>,
)
    requires
        after.spec_bet(seed) is None,
    ensures
        spec_resolve(after.spec_bet(seed), after.vault_balance, sig, entries, house_key, primitive_id)
            == Err::<(u64, Option<u64>), ResolveError>(ResolveError::BetNotFound),
{
}

/// Resolution soundness law: funds move only past a verified envelope. If a
/// resolution attempt decides a transfer, then a bet stood under the seed,
/// the envelope attested to the supplied signature, the house's key, and
/// exactly this bet's canonical encoding, the derived outcome beat the bet's
/// threshold, and the transfer is exactly the scaled payout debited from the
/// vault.
pub proof fn lemma_resolution_sound(
    bet: Option<Bet>,
    vault: u64,
    new_vault: u64,
    payout: u64,
    sig: Seq<u8>,
    entries: Seq<InstructionEntry>,
    house_key: Seq<u8>,
    primitive_id: Seq<u8>,
)
    requires
        spec_resolve(bet, vault, sig, entries, house_key, primitive_id)
            == Ok::<(u64, Option<u64>), ResolveError>((new_vault, Some(payout))),
    ensures
        bet is Some,
        spec_verify(entries, sig, house_key, spec_encode(bet->Some_0), primitive_id)
            == Ok::<(), ResolveError>(()),
        spec_outcome(sig) < bet->Some_0.roll,
        payout == crate::settle::spec_payout(bet->Some_0.amount, bet->Some_0.roll),
        payout <= vault,
        new_vault == vault - payout,
{
}

/// Resolution completeness law: a correctly attested winning bet is owed its
/// exact payout. If the bet stands under its seed, the envelope verifies
/// against its canonical encoding, the derived outcome lies below the bet's
/// threshold, the scaled payout fits the native unit width, and the vault
/// covers it, then resolution decides exactly that transfer.
pub proof fn lemma_resolution_complete(
    b: Bet,
    vault: u64,
    sig: Seq<u8>,
    entries: Seq<InstructionEntry>,
    house_key: Seq<u8>,
    primitive_id: Seq<u8>,
)
    requires
        spec_verify(entries, sig, house_key, spec_encode(b), primitive_id)
            == Ok::<(), ResolveError>(()),
        spec_outcome(sig) < b.roll,
        crate::settle::spec_payout(b.amount, b.roll) <= u64::MAX,
        crate::settle::spec_payout(b.amount, b.roll) <= vault,
    ensures
        spec_resolve(Some(b), vault, sig, entries, house_key, primitive_id)
            == Ok::<(u64, Option<u64>), ResolveError>((
                (vault - crate::settle::spec_payout(b.amount, b.roll)) as u64,
                Some(crate::settle::spec_payout(b.amount, b.roll) as u64),
            )),
{
}

} // verus!
