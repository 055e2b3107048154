use vstd::prelude::*;

use crate::errors::LotteryError;

verus! {

/// An account identity, modelled as a plain integer token. The ledger's
/// 32-byte account keys are reduced to this by the unverified shell; the
/// lottery's rules only ever compare identities for equality and store
/// them, so nothing more is needed of the type.
pub type AccountId = u64;

/// Upper bound on tickets sold per lottery.
pub const MAX_PARTICIPANTS: u32 = 100;

/// The lifecycle phase of a lottery. Transitions only ever run forward:
/// `Active` to `EndedWaitingForWinner` (lazily, once the end time has
/// passed), then `WinnerSelected`, then `Completed`.
#[derive(Clone, Copy, Debug, PartialEq, Eq, Structural)]
pub enum LotteryStatus {
    Active,
    EndedWaitingForWinner,
    WinnerSelected,
    Completed,
}

impl core::default::Default for LotteryStatus {
    /// A fresh lottery starts selling tickets.
    fn default() -> (s: Self)
        ensures
            s is Active,
    {
        LotteryStatus::Active
    }
}

/// The persisted record holding one lottery's full state. All cross-call
/// state lives here: each operation is an isolated atomic call, so every
/// invariant is re-established as an explicit postcondition of every
/// operation rather than guarded by any in-memory lock.
#[derive(Clone, Debug, PartialEq)]
pub struct LotteryState {
    /// Caller-chosen identifier; immutable after creation.
    pub lottery_id: String,
    /// Identity of the protocol administrator record in force at creation.
    pub admin: AccountId,
    /// The organizer; barred from participating.
    pub creator: AccountId,
    /// Price per ticket in smallest currency units; fixed at creation.
    pub entry_fee: u64,
    /// Count of tickets sold so far.
    pub total_tickets: u32,
    /// Buyer identities, one entry per ticket, in order of purchase.
    pub participants: Vec<AccountId>,
    /// Timestamp after which ticket sales must stop.
    pub end_time: i64,
    /// The selected winner, set exactly once.
    pub winner: Option<AccountId>,
    /// The oracle record consulted during selection, for audit.
    pub randomness_account: Option<AccountId>,
    /// Running purchase counter; tracks `total_tickets`.
    pub index: u32,
    /// Current lifecycle phase.
    pub status: LotteryStatus,
    /// Escrow total, set once at selection time.
    pub total_prize: u64,
    /// Buyback disposition policy chosen at creation: `true` returns
    /// swapped treasury proceeds to the caller, `false` burns them.
    pub buy_back: bool,
}

impl LotteryState {
    /// The status a reader must observe at time `now`: sales end lazily,
    /// by a single comparison against `end_time`, the first time any call
    /// reads the status after the end time has passed.
    pub open spec fn lazy_status(self, now: i64) -> LotteryStatus {
        if self.status is Active && now > self.end_time {
            LotteryStatus::EndedWaitingForWinner
        } else {
            self.status
        }
    }

    /// The record as any status-reading call leaves it at time `now`.
    pub open spec fn lazy(self, now: i64) -> LotteryState {
        LotteryState { status: self.lazy_status(now), ..self }
    }

    /// Well-formedness: the invariants that hold after every transition.
    pub open spec fn wf(self) -> bool {
        &&& self.participants@.len() == self.total_tickets as nat
        &&& self.total_tickets <= MAX_PARTICIPANTS
        &&& self.index == self.total_tickets
        &&& !self.participants@.contains(self.creator)
        &&& (self.winner is Some ==> self.participants@.contains(self.winner->0))
        &&& (self.status is Active || self.status is EndedWaitingForWinner
            ==> self.winner is None)
        &&& (self.status is Active
            ==> self.total_prize == 0 && self.randomness_account is None)
        &&& (self.status is EndedWaitingForWinner
            ==> self.total_prize == 0
                || self.total_prize == self.entry_fee * self.total_tickets)
        &&& (self.status is WinnerSelected || self.status is Completed
            ==> self.winner is Some
                && self.total_tickets > 0
                && self.total_prize == self.entry_fee * self.total_tickets)
    }

    /// Replaces the status and nothing else.
    pub fn update_status(&mut self, new_status: LotteryStatus)
        ensures
            *final(self) == (LotteryState { status: new_status, ..*old(self) }),
    {
        self.status = new_status;
    }

    /// Reads the current status, first applying the one-way lazy
    /// `Active` to `EndedWaitingForWinner` transition if the end time
    /// has passed.
    pub fn get_status(&mut self, current_time: i64) -> (s: LotteryStatus)
        ensures
            *final(self) == old(self).lazy(current_time),
            s == old(self).lazy_status(current_time),
    {
        if current_time > self.end_time && matches!(self.status, LotteryStatus::Active) {
            self.update_status(LotteryStatus::EndedWaitingForWinner);
        }
        self.status
    }

    /// Sets the winner, enforcing the once-only and membership
    /// invariants: a winner may be set only once, and only to an entry
    /// of `participants`.
    pub fn set_winner(&mut self, winner: AccountId) -> (r: Result<(), LotteryError>)
        ensures
            old(self).winner is Some ==> r == Err::<(), LotteryError>(
                LotteryError::WinnerAlreadySelected,
            ) && *final(self) == *old(self),
            old(self).winner is None && !old(self).participants@.contains(winner)
                ==> r == Err::<(), LotteryError>(LotteryError::InvalidWinnerIndex)
                    && *final(self) == *old(self),
            old(self).winner is None && old(self).participants@.contains(winner)
                ==> r == Ok::<(), LotteryError>(())
                    && *final(self) == (LotteryState { winner: Some(winner), ..*old(self) }),
    {
        if self.winner.is_some() {
            return Err(LotteryError::WinnerAlreadySelected);
        }
        if !contains_id(&self.participants, winner) {
            return Err(LotteryError::InvalidWinnerIndex);
        }
        self.winner = Some(winner);
        Ok(())
    }
}

/// Whether `ids` holds `target`.
pub fn contains_id(ids: &Vec<AccountId>, target: AccountId) -> (r: bool)
    ensures
        r == ids@.contains(target),
{
    let mut i: usize = 0;
    while i < ids.len()
        invariant
            i <= ids@.len(),
            forall|j: int| 0 <= j < i ==> ids@[j] != target,
        decreases ids@.len() - i,
    {
        if ids[i] == target {
            assert(ids@.contains(target));
            return true;
        }
        i += 1;
    }
    false
}

/// Creates a lottery record in its initial `Active` phase with no
/// tickets sold, no winner, and an empty escrow.
pub fn initialize(
    lottery_id: String,
    entry_fee: u64,
    end_time: i64,
    admin: AccountId,
    creator_key: AccountId,
    buy_back: bool,
) -> (l: LotteryState)
    requires
        entry_fee > 0,
    ensures
        l == (LotteryState {
            lottery_id: lottery_id,
            admin: admin,
            creator: creator_key,
            entry_fee: entry_fee,
            total_tickets: 0,
            participants: l.participants,
            end_time: end_time,
            winner: None,
            randomness_account: None,
            index: 0,
            status: LotteryStatus::Active,
            total_prize: 0,
            buy_back: buy_back,
        }),
        l.participants@ == Seq::<AccountId>::empty(),
        l.wf(),
{
    LotteryState {
        lottery_id,
        admin,
        creator: creator_key,
        entry_fee,
        total_tickets: 0,
        participants: Vec::new(),
        end_time,
        winner: None,
        randomness_account: None,
        index: 0,
        status: LotteryStatus::Active,
        total_prize: 0,
        buy_back,
    }
}

/// The protocol-wide administrator record: the authority identity and
/// the derivation salt used to authorize treasury-signed calls.
#[derive(Clone, Copy, Debug, PartialEq, Eq, Structural)]
pub struct AdminState {
    pub bump: u8,
    pub authority: AccountId,
}

/// Captures the administrator identity and derivation salt in a fresh
/// administrator record.
pub fn set_admin_wallet(authority: AccountId, bump: u8) -> (a: AdminState)
    ensures
        a == (AdminState { bump: bump, authority: authority }),
{
    AdminState { bump, authority }
}

} // verus!
