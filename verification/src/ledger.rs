use vstd::prelude::*;

use crate::account::AccountId;
use crate::selector::{select_index, spec_select_index};

verus! {

/// Why a ledger operation was refused.
#[derive(Clone, Copy, PartialEq, Eq, Structural, Debug)]
pub enum LotteryError {
    /// The round capacity is zero, so no round could ever fill and finalize.
    /// Rejected at construction; registration also refuses it defensively.
    CapacityMisconfigured,
    /// A finalize was attempted while the participant list was empty:
    /// there is nobody a winner could be selected from.
    EmptyRound,
    /// The environment reported that the payout transfer could not be
    /// completed; the round was left untouched rather than cleared.
    PayoutFailed,
}

/// What a successful registration produced.
#[derive(Clone, Copy, PartialEq, Eq, Structural, Debug)]
pub enum RegisterOutcome {
    /// The round is still open; `current_count` participants are now in it.
    Registered { current_count: u32 },
    /// This registration filled the round: a winner was selected, the
    /// accumulated pool is owed to them, and the round was reset.
    RoundFinalized { winner: AccountId, payout_amount: u128 },
}

/// A request to the hosting environment to transfer the pooled stakes.
///
/// The ledger never moves funds itself; it emits this instruction and
/// trusts the environment to execute the transfer.
#[derive(Clone, Copy, PartialEq, Eq, Structural, Debug)]
pub struct PayoutInstruction {
    pub recipient: AccountId,
    pub amount: u128,
}

/// The mathematical state of a ledger: what the contracts speak about.
#[verifier::ext_equal]
pub struct RoundState {
    /// The current round's participants, in entry order, duplicates allowed.
    pub players: Seq<AccountId>,
    /// The sum of the stakes attached to the current round's registrations.
    pub pool: nat,
    /// The winner of the most recently completed round, if any.
    pub last_winner: Option<AccountId>,
    /// How many rounds have completed since construction.
    pub round_count: nat,
    /// The fixed number of registrations that fills a round.
    pub max_players: nat,
}

impl RoundState {
    /// Well-formedness: between operations the participant list is always
    /// strictly below capacity (a full round finalizes and resets within the
    /// registration that filled it), and the pool is bounded by what that
    /// many maximal stakes could have deposited.
    pub open spec fn wf(self) -> bool {
        &&& self.players.len() < self.max_players || self.players.len() == 0
        &&& self.pool <= self.players.len() * (u64::MAX as nat)
    }
}

/// The state a freshly constructed ledger starts in.
pub open spec fn spec_initial(max_players: nat) -> RoundState {
    (RoundState {
        players: Seq::empty(),
        pool: 0,
        last_winner: None,
        round_count: 0,
        max_players: max_players,
    })
}

/// The index selection applied to a round state's participant list.
pub open spec fn spec_winner_index(s: RoundState, entropy: u64) -> nat {
    spec_select_index(s.players.len(), entropy)
}

/// The participant that a finalize with this entropy selects.
pub open spec fn spec_winner(s: RoundState, entropy: u64) -> AccountId
    recommends
        s.players.len() > 0,
{
    s.players[spec_winner_index(s, entropy) as int]
}

/// The state transition of a finalize: the winner is recorded, the round
/// counter advances by one, and the participant list and pool are cleared,
/// all in one step.
pub open spec fn spec_finalized(s: RoundState, entropy: u64) -> RoundState
    recommends
        s.players.len() > 0,
{
    (RoundState {
        players: Seq::empty(),
        pool: 0,
        last_winner: Some(spec_winner(s, entropy)),
        round_count: s.round_count + 1,
        max_players: s.max_players,
    })
}

/// The state transition of appending one registration, before any
/// finalize that it may trigger.
pub open spec fn spec_registered(s: RoundState, caller: AccountId, stake: u64) -> RoundState {
    (RoundState { players: s.players.push(caller), pool: (s.pool + stake) as nat, ..s })
}

/// The full state transition of one registration: the participant is
/// appended, and if that fills the round to capacity, the round finalizes
/// within the same step.
pub open spec fn spec_entered(
    s: RoundState,
    caller: AccountId,
    stake: u64,
    entropy: u64,
) -> RoundState {
    let mid = spec_registered(s, caller, stake);
    if mid.players.len() == s.max_players {
        spec_finalized(mid, entropy)
    } else {
        mid
    }
}

/// A round-based lottery ledger.
///
/// Created once with a fixed positive capacity; participants register one
/// at a time, and the registration that reaches the capacity finalizes the
/// round in the same atomic step. A finalize selects a winner from the
/// participant list using an externally supplied entropy value, records
/// the winner, advances the completed-round counter, clears the round, and
/// emits a payout instruction for the accumulated pool.
pub struct Chance {
    players: Vec<AccountId>,
    pool: u128,
    last_winner: Option<AccountId>,
    round_count: u32,
    max_players: u32,
}

impl View for Chance {
    type V = RoundState;

    closed spec fn view(&self) -> RoundState {
        (RoundState {
            players: self.players@,
            pool: self.pool as nat,
            last_winner: self.last_winner,
            round_count: self.round_count as nat,
            max_players: self.max_players as nat,
        })
    }
}

impl Chance {
    /// Creates a ledger for rounds of `max_players` registrations.
    ///
    /// A capacity of zero could never be reached by registering, so it is
    /// rejected here, at construction, rather than surfacing at call time.
    pub fn new(max_players: u32) -> (r: Result<Chance, LotteryError>)
        ensures
            r is Err <==> max_players == 0,
            r is Err ==> r == Err::<Chance, LotteryError>(LotteryError::CapacityMisconfigured),
            r matches Ok(c) ==> c@ == spec_initial(max_players as nat) && c@.wf(),
    {
        if max_players == 0 {
            return Err(LotteryError::CapacityMisconfigured);
        }
        let c = Chance {
            players: Vec::new(),
            pool: 0,
            last_winner: None,
            round_count: 0,
            max_players,
        };
        proof {
            assert(c@ =~= spec_initial(max_players as nat));
        }
        Ok(c)
    }

    /// Registers `caller` into the current round with an attached `stake`.
    ///
    /// If this registration fills the round to capacity, the round
    /// finalizes as part of the same step: a winner is selected with
    /// `entropy`, recorded, owed the whole pool, and the round is reset.
    /// No state where the count equals the capacity but the round has not
    /// finalized is ever observable. The defensive error is only possible
    /// on a zero-capacity ledger, which `new` never hands out.
    pub fn enter(&mut self, caller: AccountId, stake: u64, entropy: u64) -> (r: Result<
        RegisterOutcome,
        LotteryError,
    >)
        requires
            old(self)@.wf(),
            old(self)@.players.len() + 1 == old(self)@.max_players ==> old(self)@.round_count
                < u32::MAX,
        ensures
            final(self)@.wf(),
            r is Err <==> old(self)@.max_players == 0,
            r is Err ==> r == Err::<RegisterOutcome, LotteryError>(
                LotteryError::CapacityMisconfigured,
            ) && final(self)@ == old(self)@,
            r is Ok ==> final(self)@ == spec_entered(old(self)@, caller, stake, entropy),
            r is Ok && old(self)@.players.len() + 1 < old(self)@.max_players ==> r == Ok::<
                RegisterOutcome,
                LotteryError,
            >(
                (RegisterOutcome::Registered {
                    current_count: (old(self)@.players.len() + 1) as u32,
                }),
            ),
            r is Ok && old(self)@.players.len() + 1 == old(self)@.max_players ==> r == Ok::<
                RegisterOutcome,
                LotteryError,
            >(
                (RegisterOutcome::RoundFinalized {
                    winner: spec_winner(spec_registered(old(self)@, caller, stake), entropy),
                    payout_amount: (old(self)@.pool + stake) as u128,
                }),
            ),
    {
        if self.max_players == 0 {
            return Err(LotteryError::CapacityMisconfigured);
        }
        self.players.push(caller);
        self.pool = self.pool + (stake as u128);
        let count = self.players.len();
        proof {
            assert(self@ =~= spec_registered(old(self)@, caller, stake));
        }
        if count == self.max_players as usize {
            match self.start_round(entropy) {
                Ok(instruction) => {
                    proof {
                        assert(self@ =~= spec_entered(old(self)@, caller, stake, entropy));
                    }
                    Ok(
                        RegisterOutcome::RoundFinalized {
                            winner: instruction.recipient,
                            payout_amount: instruction.amount,
                        },
                    )
                },
                Err(e) => {
                    // Unreachable: the round is non-empty right after the
                    // push, so the finalize cannot refuse it.
                    proof {
                        assert(false);
                    }
                    Err(e)
                },
            }
        } else {
            Ok(RegisterOutcome::Registered { current_count: count as u32 })
        }
    }

    /// Finalizes the current round: selects a winner from the participant
    /// list using `entropy`, records them as the last winner, advances the
    /// completed-round counter, clears the round, and returns the payout
    /// instruction for the accumulated pool — one atomic transition.
    ///
    /// Refused with `EmptyRound`, leaving the ledger untouched, when no
    /// participant has registered: a winner cannot be selected from nobody.
    pub fn start_round(&mut self, entropy: u64) -> (r: Result<PayoutInstruction, LotteryError>)
        requires
            old(self)@.players.len() > 0 ==> old(self)@.round_count < u32::MAX,
        ensures
            r is Err <==> old(self)@.players.len() == 0,
            r is Err ==> r == Err::<PayoutInstruction, LotteryError>(LotteryError::EmptyRound)
                && final(self)@ == old(self)@,
            r is Ok ==> final(self)@ == spec_finalized(old(self)@, entropy),
            r is Ok ==> r == Ok::<PayoutInstruction, LotteryError>(
                (PayoutInstruction {
                    recipient: spec_winner(old(self)@, entropy),
                    amount: old(self)@.pool as u128,
                }),
            ),
            r is Ok ==> final(self)@.wf(),
    {
        if self.players.len() == 0 {
            return Err(LotteryError::EmptyRound);
        }
        let idx = select_index(self.players.len(), entropy);
        let winner = self.players[idx];
        let amount = self.pool;
        self.players = Vec::new();
        self.pool = 0;
        self.last_winner = Some(winner);
        self.round_count = self.round_count + 1;
        proof {
            assert(self@ =~= spec_finalized(old(self)@, entropy));
        }
        Ok(PayoutInstruction { recipient: winner, amount })
    }

    /// Finalizes the current round only once the environment has confirmed
    /// that the payout transfer can be honored.
    ///
    /// The intended protocol: the caller first plans the payout (via
    /// `choose_winner` and the pool), attempts the transfer, and reports
    /// the result here. On `payout_confirmed` the round commits exactly as
    /// `start_round` does; on a failed payout the ledger is left entirely
    /// unchanged — never cleared with no recorded payout — and the caller
    /// may retry. Selection is deterministic in the state and `entropy`,
    /// so the committed winner is the planned one.
    pub fn settle_round(&mut self, entropy: u64, payout_confirmed: bool) -> (r: Result<
        PayoutInstruction,
        LotteryError,
    >)
        requires
            old(self)@.players.len() > 0 && payout_confirmed ==> old(self)@.round_count
                < u32::MAX,
        ensures
            old(self)@.players.len() == 0 ==> r == Err::<PayoutInstruction, LotteryError>(
                LotteryError::EmptyRound,
            ) && final(self)@ == old(self)@,
            old(self)@.players.len() > 0 && !payout_confirmed ==> r == Err::<
                PayoutInstruction,
                LotteryError,
            >(LotteryError::PayoutFailed) && final(self)@ == old(self)@,
            old(self)@.players.len() > 0 && payout_confirmed ==> r == Ok::<
                PayoutInstruction,
                LotteryError,
            >(
                (PayoutInstruction {
                    recipient: spec_winner(old(self)@, entropy),
                    amount: old(self)@.pool as u128,
                }),
            ) && final(self)@ == spec_finalized(old(self)@, entropy),
    {
        if self.players.len() == 0 {
            return Err(LotteryError::EmptyRound);
        }
        if !payout_confirmed {
            return Err(LotteryError::PayoutFailed);
        }
        self.start_round(entropy)
    }

    /// The participant that a finalize with `entropy` would select right
    /// now, without changing any state. This is the planning half of the
    /// two-phase settle protocol, and is usable on its own as the pure
    /// selection strategy.
    pub fn choose_winner(&self, entropy: u64) -> (r: Result<AccountId, LotteryError>)
        ensures
            r is Err <==> self@.players.len() == 0,
            r is Err ==> r == Err::<AccountId, LotteryError>(LotteryError::EmptyRound),
            r is Ok ==> r == Ok::<AccountId, LotteryError>(spec_winner(self@, entropy)),
    {
        if self.players.len() == 0 {
            return Err(LotteryError::EmptyRound);
        }
        let idx = select_index(self.players.len(), entropy);
        Ok(self.players[idx])
    }

    /// A snapshot copy of the current round's participants, in entry order.
    /// Mutating the returned vector does not affect the ledger.
    pub fn get_players(&self) -> (r: Vec<AccountId>)
        ensures
            r@ == self@.players,
    {
        let mut out: Vec<AccountId> = Vec::new();
        let mut i: usize = 0;
        while i < self.players.len()
            invariant
                i <= self.players@.len(),
                out@.len() == i as nat,
                forall|j: int| 0 <= j < i ==> out@[j] == self.players@[j],
            decreases self.players@.len() - i,
        {
            let p = self.players[i];
            out.push(p);
            i = i + 1;
        }
        proof {
            assert(out@ =~= self@.players);
        }
        out
    }

    /// How many participants are in the current round.
    pub fn get_player_count(&self) -> (r: u32)
        requires
            self@.wf(),
        ensures
            r as nat == self@.players.len(),
    {
        self.players.len() as u32
    }

    /// The winner of the most recently completed round; `None` before any
    /// round has completed.
    pub fn get_last_winner(&self) -> (r: Option<AccountId>)
        ensures
            r == self@.last_winner,
    {
        self.last_winner
    }

    /// How many rounds have completed since construction.
    pub fn get_completed_round_count(&self) -> (r: u32)
        ensures
            r as nat == self@.round_count,
    {
        self.round_count
    }

    /// The round capacity this ledger was constructed with.
    pub fn get_max_players(&self) -> (r: u32)
        ensures
            r as nat == self@.max_players,
    {
        self.max_players
    }
}

} // verus!
