use vstd::prelude::*;

use crate::errors::LotteryError;
use crate::state::{AccountId, LotteryState};

verus! {

/// The identity token of the only aggregator program the treasury swap
/// may target, derived from the aggregator's ledger key the same way the
/// unverified shell reduces every account key to an identity token.
pub const JUPITER_PROGRAM_ID: AccountId = 7980433456693082372;

/// Held input-currency balance, in smallest units, below which a buyback
/// call is a no-op success rather than a wasted external swap.
pub const BUY_BACK_THRESHOLD: u64 = 100_000_000;

/// One auxiliary account handed in for the external swap call, as the
/// caller supplied it.
#[derive(Clone, Copy, Debug, PartialEq, Eq, Structural)]
pub struct RemainingAccount {
    pub key: AccountId,
    pub is_writable: bool,
}

/// One account of the instruction the swap collaborator receives: the
/// caller's list passed through unmodified except that the administrator
/// treasury is marked as the signing authority.
#[derive(Clone, Copy, Debug, PartialEq, Eq, Structural)]
pub struct CallAccount {
    pub key: AccountId,
    pub is_signer: bool,
    pub is_writable: bool,
}

/// What a buyback call must do: nothing (balance under threshold), or
/// invoke the swap with the marked account list and then apply the
/// lottery's immutable disposition policy — return the whole swapped
/// output to the caller, or burn it.
#[derive(Clone, Debug, PartialEq)]
pub enum BuybackPlan {
    Skip,
    Swap { accounts: Vec<CallAccount>, return_to_caller: bool },
}

/// Decides one treasury buyback call. Fails on an identifier mismatch,
/// succeeds as a no-op when the held input balance is at or under the
/// threshold, refuses any swap target but the authorized aggregator,
/// and otherwise yields the swap plan: the caller-supplied account list
/// with the administrator marked as signer, and the disposition chosen
/// at creation.
pub fn buy_back(
    lottery: &LotteryState,
    lottery_id: &String,
    vault_input_amount: u64,
    jupiter_program: AccountId,
    remaining_accounts: &Vec<RemainingAccount>,
    admin: AccountId,
) -> (r: Result<BuybackPlan, LotteryError>)
    ensures
        lottery.lottery_id@ != lottery_id@ ==> r == Err::<BuybackPlan, LotteryError>(
            LotteryError::InvalidLotteryId,
        ),
        lottery.lottery_id@ == lottery_id@ && vault_input_amount <= BUY_BACK_THRESHOLD ==> r
            == Ok::<BuybackPlan, LotteryError>(BuybackPlan::Skip),
        lottery.lottery_id@ == lottery_id@ && vault_input_amount > BUY_BACK_THRESHOLD
            && jupiter_program != JUPITER_PROGRAM_ID ==> r == Err::<BuybackPlan, LotteryError>(
            LotteryError::Unauthorized,
        ),
        lottery.lottery_id@ == lottery_id@ && vault_input_amount > BUY_BACK_THRESHOLD
            && jupiter_program == JUPITER_PROGRAM_ID ==> r is Ok && (r->Ok_0 matches
        BuybackPlan::Swap { accounts, return_to_caller } && accounts@.len()
            == remaining_accounts@.len() && return_to_caller == lottery.buy_back && (forall|i: int|
            0 <= i < accounts@.len() ==> #[trigger] accounts@[i] == (CallAccount {
                key: remaining_accounts@[i].key,
                is_signer: remaining_accounts@[i].key == admin,
                is_writable: remaining_accounts@[i].is_writable,
            }))),
{
    if !(lottery.lottery_id == *lottery_id) {
        return Err(LotteryError::InvalidLotteryId);
    }
    if vault_input_amount <= BUY_BACK_THRESHOLD {
        return Ok(BuybackPlan::Skip);
    }
    if !(jupiter_program == JUPITER_PROGRAM_ID) {
        return Err(LotteryError::Unauthorized);
    }
    let mut accounts: Vec<CallAccount> = Vec::new();
    let mut i: usize = 0;
    while i < remaining_accounts.len()
        invariant
            i <= remaining_accounts@.len(),
            accounts@.len() == i as nat,
            forall|j: int| 0 <= j < i ==> #[trigger] accounts@[j] == (CallAccount {
                key: remaining_accounts@[j].key,
                is_signer: remaining_accounts@[j].key == admin,
                is_writable: remaining_accounts@[j].is_writable,
            }),
        decreases remaining_accounts@.len() - i,
    {
        let acc = remaining_accounts[i];
        let is_signer = acc.key == admin;
        accounts.push(CallAccount { key: acc.key, is_signer, is_writable: acc.is_writable });
        i += 1;
    }
    Ok(BuybackPlan::Swap { accounts, return_to_caller: lottery.buy_back })
}

} // verus!
