use vstd::prelude::*;

use crate::errors::LotteryError;
use crate::oracle::{oracle_value_at, read_oracle_value};
use crate::state::{AccountId, LotteryState, LotteryStatus, MAX_PARTICIPANTS};

verus! {

/// Reads a lottery's current status, applying the lazy end-of-sales
/// transition first so that every caller observes a consistent view.
/// Fails only when the supplied identifier does not match the record.
pub fn get_status(
    lottery: &mut LotteryState,
    lottery_id: &String,
    current_time: i64,
) -> (r: Result<LotteryStatus, LotteryError>)
    ensures
        old(lottery).lottery_id@ != lottery_id@ ==> r == Err::<LotteryStatus, LotteryError>(
            LotteryError::InvalidLotteryId,
        ) && *final(lottery) == *old(lottery),
        old(lottery).lottery_id@ == lottery_id@ ==> r == Ok::<LotteryStatus, LotteryError>(
            old(lottery).lazy_status(current_time),
        ) && *final(lottery) == old(lottery).lazy(current_time),
        old(lottery).wf() ==> final(lottery).wf(),
        final(lottery).winner == old(lottery).winner,
        final(lottery).total_prize == old(lottery).total_prize,
        final(lottery).participants == old(lottery).participants,
{
    if !(lottery.lottery_id == *lottery_id) {
        return Err(LotteryError::InvalidLotteryId);
    }
    let status = lottery.get_status(current_time);
    Ok(status)
}

/// The first admission check that a purchase fails at time `now`, if any.
/// The checks run in a fixed order and each fails independently.
pub open spec fn buy_error(
    l: LotteryState,
    id: Seq<char>,
    player: AccountId,
    now: i64,
) -> Option<LotteryError> {
    if l.lottery_id@ != id {
        Some(LotteryError::InvalidLotteryId)
    } else if player == l.creator {
        Some(LotteryError::CreatorCannotParticipate)
    } else if !(l.lazy_status(now) is Active) {
        Some(LotteryError::InvalidLotteryState)
    } else if l.winner is Some {
        Some(LotteryError::WinnerAlreadySelected)
    } else if l.total_tickets >= MAX_PARTICIPANTS {
        Some(LotteryError::MaxParticipantsReached)
    } else {
        None
    }
}

/// Records one ticket purchase: the buyer is appended to `participants`
/// and the ticket count advances, provided the identifier matches, the
/// buyer is not the creator, sales are still open, no winner exists and
/// the cap has room. The caller settles the `entry_fee` payment; a
/// failed purchase leaves the record untouched except for the one-way
/// lazy status derivation a status read performs.
pub fn buy_ticket(
    lottery: &mut LotteryState,
    lottery_id: &String,
    player: AccountId,
    current_time: i64,
) -> (r: Result<(), LotteryError>)
    requires
        old(lottery).wf(),
    ensures
        final(lottery).wf(),
        match buy_error(*old(lottery), lottery_id@, player, current_time) {
            Some(e) => {
                &&& r == Err::<(), LotteryError>(e)
                &&& if e == LotteryError::InvalidLotteryId
                    || e == LotteryError::CreatorCannotParticipate {
                    *final(lottery) == *old(lottery)
                } else {
                    *final(lottery) == old(lottery).lazy(current_time)
                }
            },
            None => {
                &&& r == Ok::<(), LotteryError>(())
                &&& final(lottery).participants@ == old(lottery).participants@.push(player)
                &&& *final(lottery) == (LotteryState {
                    participants: final(lottery).participants,
                    total_tickets: (old(lottery).total_tickets + 1) as u32,
                    index: (old(lottery).index + 1) as u32,
                    ..*old(lottery)
                })
            },
        },
        // A winner, once set, is untouched by purchases, and the prize
        // total is only ever written at selection time.
        old(lottery).winner is Some ==> r is Err && final(lottery).winner == old(
            lottery,
        ).winner,
        final(lottery).total_prize == old(lottery).total_prize,
{
    if !(lottery.lottery_id == *lottery_id) {
        return Err(LotteryError::InvalidLotteryId);
    }
    if player == lottery.creator {
        return Err(LotteryError::CreatorCannotParticipate);
    }
    let current_status = lottery.get_status(current_time);
    if !matches!(current_status, LotteryStatus::Active) {
        return Err(LotteryError::InvalidLotteryState);
    }
    if lottery.winner.is_some() {
        return Err(LotteryError::WinnerAlreadySelected);
    }
    if lottery.total_tickets >= MAX_PARTICIPANTS {
        return Err(LotteryError::MaxParticipantsReached);
    }
    lottery.participants.push(player);
    lottery.total_tickets = lottery.total_tickets + 1;
    lottery.index = lottery.index + 1;
    proof {
        assert forall|x: AccountId| lottery.participants@.contains(x) implies old(
            lottery,
        ).participants@.contains(x) || x == player by {
            let i = choose|i: int|
                0 <= i < lottery.participants@.len() && lottery.participants@[i] == x;
            if i < old(lottery).participants@.len() {
                assert(old(lottery).participants@[i] == x);
            }
        }
    }
    Ok(())
}

/// Whether winner selection may run at time `now`: sales have ended,
/// either already recorded in the status or observed now via the lazy
/// derivation from the end time.
pub open spec fn selection_open(l: LotteryState, now: i64) -> bool {
    ||| l.lazy_status(now) is EndedWaitingForWinner
    ||| (l.lazy_status(now) is Active && now > l.end_time)
}

/// The record and result that one selection call leaves behind, given
/// the oracle account bytes it read and the slot and time it ran at.
/// A failing step keeps every mutation of the steps before it — the
/// caller retries the whole call — so the partial states are spelled
/// out here step by step.
pub open spec fn select_outcome(
    l: LotteryState,
    id: Seq<char>,
    bytes: Seq<u8>,
    clock_slot: u64,
    oracle_key: AccountId,
    now: i64,
) -> (LotteryState, Result<(), LotteryError>) {
    if l.lottery_id@ != id {
        (l, Err(LotteryError::InvalidLotteryId))
    } else if !selection_open(l, now) {
        (l.lazy(now), Err(LotteryError::InvalidLotteryState))
    } else if l.winner is Some {
        (l.lazy(now), Err(LotteryError::WinnerAlreadySelected))
    } else if l.total_tickets == 0 {
        (l.lazy(now), Err(LotteryError::NoParticipants))
    } else {
        let sourced = LotteryState { randomness_account: Some(oracle_key), ..l.lazy(now) };
        if l.entry_fee * l.total_tickets > u64::MAX {
            (sourced, Err(LotteryError::Overflow))
        } else {
            let prized = LotteryState {
                total_prize: (l.entry_fee * l.total_tickets) as u64,
                ..sourced
            };
            match oracle_value_at(bytes, clock_slot) {
                Err(e) => (prized, Err(e)),
                Ok(value_byte) => (
                    LotteryState {
                        winner: Some(
                            l.participants@[(value_byte as int) % (l.total_tickets as int)],
                        ),
                        status: LotteryStatus::WinnerSelected,
                        ..prized
                    },
                    Ok(()),
                ),
            }
        }
    }
}

/// Consumes one oracle reading and selects the winner: records the
/// oracle reference, fixes `total_prize = entry_fee * total_tickets`
/// by a checked multiplication, derives the winner index as the oracle
/// value modulo the ticket count (the modulo bias toward lower indices
/// is the intended behavior), sets the winner and advances the status.
/// An unreadable oracle record or one not yet resolved for the current
/// slot fails retryably, keeping the prize and oracle reference so the
/// same call can be reissued later.
pub fn select_winner(
    lottery: &mut LotteryState,
    lottery_id: &String,
    randomness_account: AccountId,
    randomness_data: &Vec<u8>,
    clock_slot: u64,
    current_time: i64,
) -> (r: Result<(), LotteryError>)
    requires
        old(lottery).wf(),
    ensures
        final(lottery).wf(),
        ({
            let (state, result) = select_outcome(
                *old(lottery),
                lottery_id@,
                randomness_data@,
                clock_slot,
                randomness_account,
                current_time,
            );
            *final(lottery) == state && r == result
        }),
        // A winner, once set, is immutable: a second selection fails and
        // leaves it as it was.
        old(lottery).winner is Some ==> r is Err && final(lottery).winner == old(
            lottery,
        ).winner,
{
    if !(lottery.lottery_id == *lottery_id) {
        return Err(LotteryError::InvalidLotteryId);
    }
    let current_status = lottery.get_status(current_time);
    if !(matches!(current_status, LotteryStatus::EndedWaitingForWinner) || (matches!(
        current_status,
        LotteryStatus::Active,
    ) && current_time > lottery.end_time)) {
        return Err(LotteryError::InvalidLotteryState);
    }
    if lottery.winner.is_some() {
        return Err(LotteryError::WinnerAlreadySelected);
    }
    if !(lottery.total_tickets > 0 && !(lottery.participants.len() == 0)) {
        return Err(LotteryError::NoParticipants);
    }
    lottery.randomness_account = Some(randomness_account);
    let prize = match lottery.entry_fee.checked_mul(lottery.total_tickets as u64) {
        Some(p) => p,
        None => {
            return Err(LotteryError::Overflow);
        },
    };
    lottery.total_prize = prize;
    let value_byte = match read_oracle_value(randomness_data, clock_slot) {
        Ok(v) => v,
        Err(e) => {
            return Err(e);
        },
    };
    let winner_index: usize = (value_byte as usize) % (lottery.total_tickets as usize);
    if !(winner_index < lottery.participants.len()) {
        return Err(LotteryError::InvalidWinnerIndex);
    }
    let winner_key = lottery.participants[winner_index];
    proof {
        assert(lottery.participants@[winner_index as int] == winner_key);
        assert(lottery.participants@.contains(winner_key));
    }
    match lottery.set_winner(winner_key) {
        Ok(()) => {},
        Err(e) => {
            return Err(e);
        },
    }
    if lottery.winner.is_none() {
        return Err(LotteryError::NoWinnerSelected);
    }
    lottery.update_status(LotteryStatus::WinnerSelected);
    Ok(())
}

} // verus!
