use vstd::prelude::*;

use crate::account::AccountId;
use crate::ledger::{
    RoundState, spec_entered, spec_finalized, spec_registered, spec_winner, spec_winner_index,
};

verus! {

/// One registration request: who enters, with what stake, and the entropy
/// that is used if this registration fills the round and finalizes it.
pub struct Registration {
    pub caller: AccountId,
    pub stake: u64,
    pub entropy: u64,
}

/// The ledger state after a sequence of registrations, applied in order.
pub open spec fn run_registrations(s: RoundState, regs: Seq<Registration>) -> RoundState
    decreases regs.len(),
{
    if regs.len() == 0 {
        s
    } else {
        run_registrations(
            spec_entered(s, regs[0].caller, regs[0].stake, regs[0].entropy),
            regs.drop_first(),
        )
    }
}

/// Registrations behave additively up to the capacity: each one that does
/// not fill the round grows the participant list by exactly one and
/// completes no round, and the one that reaches the capacity completes
/// exactly one round and empties the list.
pub proof fn lemma_run_below_capacity(s: RoundState, regs: Seq<Registration>)
    requires
        s.wf(),
        s.max_players >= 1,
        s.players.len() + regs.len() <= s.max_players,
    ensures
        run_registrations(s, regs).max_players == s.max_players,
        run_registrations(s, regs).wf(),
        s.players.len() + regs.len() < s.max_players ==> run_registrations(s, regs).players.len()
            == s.players.len() + regs.len() && run_registrations(s, regs).round_count
            == s.round_count && run_registrations(s, regs).last_winner == s.last_winner,
        s.players.len() + regs.len() == s.max_players ==> run_registrations(s, regs).players.len()
            == 0 && run_registrations(s, regs).round_count == s.round_count + 1,
    decreases regs.len(),
{
    if regs.len() == 0 {
    } else {
        let step = spec_entered(s, regs[0].caller, regs[0].stake, regs[0].entropy);
        let mid = spec_registered(s, regs[0].caller, regs[0].stake);
        if mid.players.len() == s.max_players {
            assert(regs.len() == 1);
            assert(run_registrations(step, regs.drop_first()) == step);
        } else {
            assert(step == mid);
            assert(step.wf());
            lemma_run_below_capacity(step, regs.drop_first());
        }
    }
}

/// For any sequence of `n <= capacity` registrations into an empty round,
/// the participant count afterwards equals `n` whenever `n < capacity`,
/// with no round completed on the way; and a finalize is triggered
/// automatically exactly when `n == capacity`, completing one round and
/// resetting the count to zero.
pub proof fn lemma_registration_sequence(s: RoundState, regs: Seq<Registration>)
    requires
        s.wf(),
        s.players.len() == 0,
        s.max_players >= 1,
        regs.len() <= s.max_players,
    ensures
        regs.len() < s.max_players ==> run_registrations(s, regs).players.len() == regs.len()
            && run_registrations(s, regs).round_count == s.round_count,
        regs.len() == s.max_players ==> run_registrations(s, regs).players.len() == 0
            && run_registrations(s, regs).round_count == s.round_count + 1,
{
    lemma_run_below_capacity(s, regs);
}

/// The winner that a finalize records is always one of the participants
/// that stood in the round at finalize time.
pub proof fn lemma_winner_was_registered(s: RoundState, entropy: u64)
    requires
        s.players.len() > 0,
    ensures
        spec_finalized(s, entropy).last_winner == Some(spec_winner(s, entropy)),
        s.players.contains(spec_winner(s, entropy)),
{
    let i = spec_winner_index(s, entropy);
    assert(i < s.players.len());
    assert(s.players[i as int] == spec_winner(s, entropy));
}

/// Immediately after a round finalizes the participant list is empty, and
/// the fresh round accepts registrations exactly as a new ledger would:
/// fewer than `capacity` of them complete no further round, and the
/// `capacity`-th completes exactly one more.
pub proof fn lemma_reset_after_finalize(s: RoundState, entropy: u64, regs: Seq<Registration>)
    requires
        s.players.len() > 0,
        s.max_players >= 1,
        regs.len() <= s.max_players,
    ensures
        spec_finalized(s, entropy).players.len() == 0,
        regs.len() < s.max_players ==> run_registrations(
            spec_finalized(s, entropy),
            regs,
        ).players.len() == regs.len() && run_registrations(
            spec_finalized(s, entropy),
            regs,
        ).round_count == s.round_count + 1,
        regs.len() == s.max_players ==> run_registrations(
            spec_finalized(s, entropy),
            regs,
        ).players.len() == 0 && run_registrations(spec_finalized(s, entropy), regs).round_count
            == s.round_count + 2,
{
    let f = spec_finalized(s, entropy);
    assert(f.wf());
    lemma_registration_sequence(f, regs);
}

/// Every finalize advances the completed-round counter by exactly one,
/// whether invoked manually or triggered by the registration that fills
/// the round; a registration that does not fill the round leaves the
/// counter untouched.
pub proof fn lemma_one_round_per_finalize(
    s: RoundState,
    caller: AccountId,
    stake: u64,
    entropy: u64,
)
    ensures
        spec_finalized(s, entropy).round_count == s.round_count + 1,
        s.players.len() + 1 == s.max_players ==> spec_entered(
            s,
            caller,
            stake,
            entropy,
        ).round_count == s.round_count + 1,
        s.players.len() + 1 != s.max_players ==> spec_entered(
            s,
            caller,
            stake,
            entropy,
        ).round_count == s.round_count,
{
}

} // verus!
