use vstd::prelude::*;

verus! {

/// Every way a lottery operation can fail. Each precondition of an
/// operation fails with its own variant, so a caller can tell a stale
/// phase from a bad input and a retryable oracle delay from the rest.
#[derive(Clone, Copy, Debug, PartialEq, Eq, Structural)]
pub enum LotteryError {
    /// The lottery has already ended.
    LotteryClosed,
    /// The lottery has not ended yet.
    LotteryNotEnded,
    /// A winner has already been selected.
    WinnerAlreadySelected,
    /// The claimant is not the winner.
    NotWinner,
    /// Arithmetic overflow occurred.
    Overflow,
    /// No participants in the lottery.
    NoParticipants,
    /// Maximum participants reached.
    MaxParticipantsReached,
    /// No winner selected.
    NoWinnerSelected,
    /// Randomness data is unavailable.
    RandomnessUnavailable,
    /// Randomness not resolved; retry the same call once the oracle
    /// round resolves.
    RandomnessNotResolved,
    /// Invalid winner index.
    InvalidWinnerIndex,
    /// Invalid lottery id.
    InvalidLotteryId,
    /// The lottery creator cannot participate in their own lottery.
    CreatorCannotParticipate,
    /// Invalid lottery state for this operation.
    InvalidLotteryState,
    /// The swap target is not the authorized aggregator program.
    Unauthorized,
}

} // verus!
