//! A verified core for an escrow-based lottery that runs as a set of
//! atomic state transitions against a persisted record: admission
//! control over ticket sales, lazy lifecycle status derivation,
//! oracle-driven winner selection, exact four-way prize settlement, and
//! the treasury buyback decision. Every cross-call invariant is stated
//! and proved as a contract on the transition that must uphold it.

pub mod buyback;
pub mod errors;
pub mod laws;
pub mod ops;
pub mod oracle;
pub mod settlement;
pub mod state;

pub use buyback::{
    buy_back, BuybackPlan, CallAccount, RemainingAccount, BUY_BACK_THRESHOLD, JUPITER_PROGRAM_ID,
};
pub use errors::LotteryError;
pub use laws::{
    lemma_lazy_changes_only_status, lemma_lazy_preserves_wf, lemma_lazy_status_idempotent,
    lemma_payout_split_exact, lemma_wf_bounds,
};
pub use settlement::{
    claim_error, claim_prize, lemma_payout_legs_bound, payout_leg, payout_legs_total,
    PayoutAccounts,
};
pub use ops::{buy_error, buy_ticket, get_status, select_outcome, select_winner, selection_open};
pub use oracle::{oracle_record_of, oracle_value_at, read_oracle_value, OracleRecord};
pub use state::{
    contains_id, initialize, set_admin_wallet, AccountId, AdminState, LotteryState,
    LotteryStatus, MAX_PARTICIPANTS,
};
