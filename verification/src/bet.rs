use vstd::prelude::*;
use vstd::bytes::{spec_u64_to_le_bytes, u64_to_le_bytes};

verus! {

/// A recorded wager, as the placement step persisted it.
///
/// All fields are immutable after placement; the record is destroyed by the
/// one successful resolution.
#[derive(Clone, Copy, Debug)]
pub struct Bet {
    /// Per-player nonce chosen at placement; keys the bet's storage address.
    pub seed: u64,
    /// The wagering party's identity, as 32 raw key bytes.
    pub player: [u8; 32],
    /// Wager value in the ledger's native unit.
    pub amount: u64,
    /// The chosen win threshold: the player wins iff the derived outcome is
    /// strictly below it. Valid bets keep it in (0, 100).
    pub roll: u8,
    /// Derivation-disambiguation byte for the bet's storage address.
    pub bump: u8,
}

/// The canonical byte sequence the oracle signs for a bet: the seed (8 bytes,
/// little endian), the win threshold (1 byte), the amount (8 bytes, little
/// endian), then the player's 32 key bytes.
pub open spec fn spec_encode(b: Bet) -> Seq<u8> {
    spec_u64_to_le_bytes(b.seed) + seq![b.roll] + spec_u64_to_le_bytes(b.amount) + b.player@
}

impl Bet {
    /// Produces the canonical encoding of this bet: the exact bytes the
    /// oracle is expected to have signed. Pure; byte-identical across all
    /// callers.
    pub fn encode(&self) -> (r: Vec<u8>)
        ensures
            r@ == spec_encode(*self),
            r@.len() == 49,
    {
        let mut out = u64_to_le_bytes(self.seed);
        out.push(self.roll);
        let mut amount_bytes = u64_to_le_bytes(self.amount);
        out.append(&mut amount_bytes);
        let ghost prefix = out@;
        let mut i: usize = 0;
        while i < 32
            invariant
                i <= 32,
                out@ == prefix + self.player@.take(i as int),
            decreases 32 - i,
        {
            out.push(self.player[i]);
            proof {
                assert(self.player@.take(i + 1 as int)
                    =~= self.player@.take(i as int).push(self.player@[i as int]));
            }
            i = i + 1;
        }
        proof {
            assert(self.player@.take(32) =~= self.player@);
            assert(out@ =~= spec_encode(*self));
        }
        out
    }
}

} // verus!
