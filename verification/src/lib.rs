//! A round-based lottery ledger.
//!
//! Participants register for a round by depositing a stake. Once the round's
//! configured capacity is reached, a winner is selected from the participant
//! list and the accumulated pool is owed to them as a payout instruction; the
//! ledger records the winner and resets for the next round.
//!
//! Winner selection is a pure function of the participant list and an
//! externally supplied entropy value, so that the same inputs always yield
//! the same winner: the hosting environment is responsible for providing
//! entropy that is unpredictable to participants at registration time.

pub mod account;
pub mod laws;
pub mod ledger;
pub mod selector;

pub use account::AccountId;
pub use ledger::Chance;
pub use ledger::LotteryError;
pub use ledger::PayoutInstruction;
pub use ledger::RegisterOutcome;
pub use ledger::RoundState;
pub use selector::select_index;
