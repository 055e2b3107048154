use vstd::prelude::*;

use vstd::arithmetic::div_mod::{lemma_fundamental_div_mod, lemma_mod_bound};

use crate::errors::LotteryError;
use crate::state::{AccountId, LotteryState, LotteryStatus};

verus! {

/// One payout leg: `pct` percent of `total`, rounded down.
pub open spec fn payout_leg(total: int, pct: int) -> int {
    (total * pct) / 100
}

/// What the four legs of the fixed 90/3/3/4 split disburse together.
pub open spec fn payout_legs_total(total: int) -> int {
    payout_leg(total, 90) + payout_leg(total, 3) + payout_leg(total, 3) + payout_leg(total, 4)
}

/// Each leg of the split stays within the escrow it divides, and the
/// four legs together never disburse more than the escrow holds.
pub proof fn lemma_payout_legs_bound(total: int)
    requires
        total >= 0,
    ensures
        0 <= payout_leg(total, 90) <= total,
        0 <= payout_leg(total, 3) <= total,
        0 <= payout_leg(total, 4) <= total,
        payout_legs_total(total) <= total,
{
    lemma_fundamental_div_mod(total * 90, 100);
    lemma_mod_bound(total * 90, 100);
    lemma_fundamental_div_mod(total * 3, 100);
    lemma_mod_bound(total * 3, 100);
    lemma_fundamental_div_mod(total * 4, 100);
    lemma_mod_bound(total * 4, 100);
}

/// The lamport balances of the five accounts settlement touches: the
/// lottery record's escrow pool and the four payout recipients.
#[derive(Clone, Copy, Debug, PartialEq, Eq, Structural)]
pub struct PayoutAccounts {
    pub pool: u64,
    pub player: u64,
    pub creator: u64,
    pub developer: u64,
    pub admin: u64,
}

/// The first settlement check a claim fails, if any. The winner and
/// phase guards run before the handler's own identifier check, in the
/// order the record's access constraints are declared.
pub open spec fn claim_error(
    l: LotteryState,
    id: Seq<char>,
    player: AccountId,
) -> Option<LotteryError> {
    if l.winner is None {
        Some(LotteryError::NoWinnerSelected)
    } else if l.winner != Some(player) {
        Some(LotteryError::NotWinner)
    } else if !(l.status is WinnerSelected) {
        Some(LotteryError::InvalidLotteryState)
    } else if l.lottery_id@ != id {
        Some(LotteryError::InvalidLotteryId)
    } else if l.total_prize * 90 > u64::MAX {
        Some(LotteryError::Overflow)
    } else {
        None
    }
}

/// Disburses the escrowed prize in four legs — 90% to the winner, 3% to
/// the creator, 3% to the developer, 4% to the administrator treasury —
/// each computed as a checked multiply-then-divide on the `total_prize`
/// fixed at selection time, never recomputed here. On success the record
/// advances to its terminal `Completed` phase with every other field
/// preserved for audit; any failing precondition leaves record and
/// balances untouched, so a second claim cannot re-disburse.
pub fn claim_prize(
    lottery: &mut LotteryState,
    accounts: &mut PayoutAccounts,
    lottery_id: &String,
    player: AccountId,
) -> (r: Result<(), LotteryError>)
    requires
        old(lottery).wf(),
        claim_error(*old(lottery), lottery_id@, player) is None ==> {
            &&& old(accounts).pool >= old(lottery).total_prize
            &&& old(accounts).player + old(lottery).total_prize <= u64::MAX
            &&& old(accounts).creator + old(lottery).total_prize <= u64::MAX
            &&& old(accounts).developer + old(lottery).total_prize <= u64::MAX
            &&& old(accounts).admin + old(lottery).total_prize <= u64::MAX
        },
    ensures
        final(lottery).wf(),
        match claim_error(*old(lottery), lottery_id@, player) {
            Some(e) => {
                &&& r == Err::<(), LotteryError>(e)
                &&& *final(lottery) == *old(lottery)
                &&& *final(accounts) == *old(accounts)
            },
            None => {
                let total = old(lottery).total_prize as int;
                &&& r == Ok::<(), LotteryError>(())
                &&& *final(lottery) == (LotteryState {
                    status: LotteryStatus::Completed,
                    ..*old(lottery)
                })
                &&& *final(accounts) == (PayoutAccounts {
                    pool: (old(accounts).pool - payout_legs_total(total)) as u64,
                    player: (old(accounts).player + payout_leg(total, 90)) as u64,
                    creator: (old(accounts).creator + payout_leg(total, 3)) as u64,
                    developer: (old(accounts).developer + payout_leg(total, 3)) as u64,
                    admin: (old(accounts).admin + payout_leg(total, 4)) as u64,
                })
            },
        },
        // The prize total fixed at selection, the winner and the sale
        // record survive settlement untouched.
        final(lottery).total_prize == old(lottery).total_prize,
        final(lottery).winner == old(lottery).winner,
        final(lottery).participants == old(lottery).participants,
        // Settlement only moves value: the five balances keep their sum.
        ({
            let a0 = *old(accounts);
            let a1 = *final(accounts);
            a1.pool + a1.player + a1.creator + a1.developer + a1.admin == a0.pool + a0.player
                + a0.creator + a0.developer + a0.admin
        }),
{
    if lottery.winner.is_none() {
        return Err(LotteryError::NoWinnerSelected);
    }
    let winner_key = lottery.winner.unwrap();
    if !(winner_key == player) {
        return Err(LotteryError::NotWinner);
    }
    if !matches!(lottery.status, LotteryStatus::WinnerSelected) {
        return Err(LotteryError::InvalidLotteryState);
    }
    if !(lottery.lottery_id == *lottery_id) {
        return Err(LotteryError::InvalidLotteryId);
    }
    let total_collected = lottery.total_prize;
    proof {
        lemma_payout_legs_bound(total_collected as int);
    }
    let prize_amount = match total_collected.checked_mul(90) {
        Some(x) => match x.checked_div(100) {
            Some(y) => y,
            None => {
                return Err(LotteryError::Overflow);
            },
        },
        None => {
            return Err(LotteryError::Overflow);
        },
    };
    let creator_share = match total_collected.checked_mul(3) {
        Some(x) => match x.checked_div(100) {
            Some(y) => y,
            None => {
                return Err(LotteryError::Overflow);
            },
        },
        None => {
            return Err(LotteryError::Overflow);
        },
    };
    let developer_share = match total_collected.checked_mul(3) {
        Some(x) => match x.checked_div(100) {
            Some(y) => y,
            None => {
                return Err(LotteryError::Overflow);
            },
        },
        None => {
            return Err(LotteryError::Overflow);
        },
    };
    let admin_share = match total_collected.checked_mul(4) {
        Some(x) => match x.checked_div(100) {
            Some(y) => y,
            None => {
                return Err(LotteryError::Overflow);
            },
        },
        None => {
            return Err(LotteryError::Overflow);
        },
    };
    accounts.pool = accounts.pool - creator_share;
    accounts.creator = accounts.creator + creator_share;
    accounts.pool = accounts.pool - developer_share;
    accounts.developer = accounts.developer + developer_share;
    accounts.pool = accounts.pool - prize_amount;
    accounts.player = accounts.player + prize_amount;
    accounts.pool = accounts.pool - admin_share;
    accounts.admin = accounts.admin + admin_share;
    lottery.update_status(LotteryStatus::Completed);
    Ok(())
}

} // verus!
