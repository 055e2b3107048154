use vstd::prelude::*;

use vstd::arithmetic::div_mod::{lemma_div_multiples_vanish, lemma_fundamental_div_mod};

use crate::settlement::{payout_leg, payout_legs_total};
use crate::state::{LotteryState, LotteryStatus, MAX_PARTICIPANTS};

verus! {

/// Every well-formed record keeps its books: one participant entry per
/// ticket sold and at most the fixed cap of them, the creator never
/// among the buyers, and any winner drawn from the buyers. Each
/// operation's contract ends in well-formedness, so these bounds hold
/// after every call of every sequence of calls.
pub proof fn lemma_wf_bounds(l: LotteryState)
    requires
        l.wf(),
    ensures
        l.participants@.len() == l.total_tickets as nat,
        l.total_tickets <= MAX_PARTICIPANTS,
        !l.participants@.contains(l.creator),
        l.winner is Some ==> l.participants@.contains(l.winner->0),
{
}

/// The fixed 90/3/3/4 split sums to 100 percent exactly: whenever the
/// escrow total is a multiple of 100 smallest units, the four payout
/// legs together disburse it with zero residue, so settlement drains
/// the escrow to exactly zero.
pub proof fn lemma_payout_split_exact(total: int)
    requires
        total >= 0,
        total % 100 == 0,
    ensures
        payout_legs_total(total) == total,
        total - payout_legs_total(total) == 0,
{
    let q = total / 100;
    lemma_fundamental_div_mod(total, 100);
    assert(total == 100 * q);
    lemma_div_multiples_vanish(90 * q, 100);
    assert(total * 90 == 100 * (90 * q));
    assert(payout_leg(total, 90) == 90 * q);
    lemma_div_multiples_vanish(3 * q, 100);
    assert(total * 3 == 100 * (3 * q));
    assert(payout_leg(total, 3) == 3 * q);
    lemma_div_multiples_vanish(4 * q, 100);
    assert(total * 4 == 100 * (4 * q));
    assert(payout_leg(total, 4) == 4 * q);
}

/// Reading the status mutates nothing but the status field, and the only
/// change it can ever make is the one-way lazy step from `Active` to
/// `EndedWaitingForWinner` once the end time has passed.
pub proof fn lemma_lazy_changes_only_status(l: LotteryState, now: i64)
    ensures
        l.lazy(now) == (LotteryState { status: l.lazy(now).status, ..l }),
        l.lazy(now) == l || (l.status is Active && now > l.end_time && l.lazy(now).status
            is EndedWaitingForWinner),
{
}

/// Status reads are idempotent: two successive reads observe the state
/// a single read at the later of the two times would have left, so once
/// the lazy transition has happened every further read returns the same
/// status and changes nothing.
pub proof fn lemma_lazy_status_idempotent(l: LotteryState, t1: i64, t2: i64)
    ensures
        l.lazy(t1).lazy(t2) == (if t1 <= t2 {
            l.lazy(t2)
        } else {
            l.lazy(t1)
        }),
        !(l.lazy(t1).status is Active) ==> l.lazy(t1).lazy(t2) == l.lazy(t1),
{
}

/// The lazy status derivation preserves every record invariant.
pub proof fn lemma_lazy_preserves_wf(l: LotteryState, now: i64)
    requires
        l.wf(),
    ensures
        l.lazy(now).wf(),
{
}

} // verus!
