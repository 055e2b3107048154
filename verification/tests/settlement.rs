use lottery::{
    buy_back, buy_ticket, claim_prize, initialize, select_winner, BuybackPlan, CallAccount,
    LotteryError, LotteryState, LotteryStatus, PayoutAccounts, RemainingAccount,
    BUY_BACK_THRESHOLD, JUPITER_PROGRAM_ID,
};

const ADMIN: u64 = 1;
const CREATOR: u64 = 2;
const END_TIME: i64 = 1_000;
const ORACLE_KEY: u64 = 777;
const CLOCK_SLOT: u64 = 5_000;

fn oracle_bytes(reveal_slot: u64, value_byte: u8) -> Vec<u8> {
    let mut data = vec![0u8; 408];
    data[..8].copy_from_slice(&[10, 66, 229, 135, 220, 239, 217, 114]);
    data[144..152].copy_from_slice(&reveal_slot.to_le_bytes());
    data[152] = value_byte;
    data
}

/// A lottery driven through sale and selection: three tickets, oracle
/// value 7, so the winner is the second buyer.
fn selected_lottery(fee: u64) -> (LotteryState, String) {
    let id = "game".to_owned();
    let mut l = initialize("game".to_owned(), fee, END_TIME, ADMIN, CREATOR, false);
    for b in [10, 11, 12] {
        assert_eq!(buy_ticket(&mut l, &id, b, 5), Ok(()));
    }
    let data = oracle_bytes(CLOCK_SLOT, 7);
    assert_eq!(
        select_winner(&mut l, &id, ORACLE_KEY, &data, CLOCK_SLOT, END_TIME + 1),
        Ok(())
    );
    (l, id)
}

fn escrow(pool: u64) -> PayoutAccounts {
    PayoutAccounts { pool, player: 0, creator: 0, developer: 0, admin: 0 }
}

#[test]
fn claim_prize_disburses_the_fixed_split() {
    let (mut l, id) = selected_lottery(1000);
    assert_eq!(l.total_prize, 3000);
    let mut accounts = escrow(3000);
    assert_eq!(claim_prize(&mut l, &mut accounts, &id, 11), Ok(()));
    assert_eq!(accounts.player, 2700);
    assert_eq!(accounts.creator, 90);
    assert_eq!(accounts.developer, 90);
    assert_eq!(accounts.admin, 120);
    // The four legs drain the escrow to exactly zero.
    assert_eq!(accounts.pool, 0);
    assert_eq!(l.status, LotteryStatus::Completed);
    // Everything else survives for audit.
    assert_eq!(l.winner, Some(11));
    assert_eq!(l.total_prize, 3000);
    assert_eq!(l.participants, vec![10, 11, 12]);
}

#[test]
fn claim_prize_rejects_non_winner() {
    let (mut l, id) = selected_lottery(1000);
    let mut accounts = escrow(3000);
    let before = (l.clone(), accounts);
    let r = claim_prize(&mut l, &mut accounts, &id, 10);
    assert_eq!(r, Err(LotteryError::NotWinner));
    assert_eq!((l, accounts), before);
}

#[test]
fn claim_prize_rejects_before_selection() {
    let id = "game".to_owned();
    let mut l = initialize("game".to_owned(), 1000, END_TIME, ADMIN, CREATOR, false);
    let mut accounts = escrow(0);
    let r = claim_prize(&mut l, &mut accounts, &id, 10);
    assert_eq!(r, Err(LotteryError::NoWinnerSelected));
    assert_eq!(l.status, LotteryStatus::Active);
}

#[test]
fn claim_prize_rejects_wrong_id() {
    let (mut l, _) = selected_lottery(1000);
    let mut accounts = escrow(3000);
    let r = claim_prize(&mut l, &mut accounts, &"other".to_owned(), 11);
    assert_eq!(r, Err(LotteryError::InvalidLotteryId));
    assert_eq!(l.status, LotteryStatus::WinnerSelected);
    assert_eq!(accounts, escrow(3000));
}

#[test]
fn second_claim_fails_and_moves_nothing() {
    let (mut l, id) = selected_lottery(1000);
    let mut accounts = escrow(3000);
    assert_eq!(claim_prize(&mut l, &mut accounts, &id, 11), Ok(()));
    let before = (l.clone(), accounts);
    let r = claim_prize(&mut l, &mut accounts, &id, 11);
    assert_eq!(r, Err(LotteryError::InvalidLotteryState));
    assert_eq!((l, accounts), before);
}

#[test]
fn claim_prize_leaves_residue_when_prize_not_divisible() {
    // A 3-unit prize rounds every leg down: 2/0/0/0 disbursed, 1 left.
    let (mut l, id) = selected_lottery(1);
    assert_eq!(l.total_prize, 3);
    let mut accounts = escrow(3);
    assert_eq!(claim_prize(&mut l, &mut accounts, &id, 11), Ok(()));
    assert_eq!(accounts.player, 2);
    assert_eq!(accounts.creator, 0);
    assert_eq!(accounts.developer, 0);
    assert_eq!(accounts.admin, 0);
    assert_eq!(accounts.pool, 1);
}

#[test]
fn claim_prize_rejects_share_overflow() {
    // A prize so large that 90 times it overflows the currency counter:
    // the claim fails with the arithmetic error and moves nothing.
    let fee = u64::MAX / 100;
    let (mut l, id) = selected_lottery(fee);
    assert_eq!(l.total_prize, fee * 3);
    let mut accounts = escrow(u64::MAX);
    let r = claim_prize(&mut l, &mut accounts, &id, 11);
    assert_eq!(r, Err(LotteryError::Overflow));
    assert_eq!(l.status, LotteryStatus::WinnerSelected);
    assert_eq!(accounts, escrow(u64::MAX));
}

#[test]
fn buy_back_skips_under_threshold() {
    let id = "game".to_owned();
    let l = initialize("game".to_owned(), 1000, END_TIME, ADMIN, CREATOR, true);
    let remaining = vec![RemainingAccount { key: 50, is_writable: true }];
    let r = buy_back(&l, &id, BUY_BACK_THRESHOLD, JUPITER_PROGRAM_ID, &remaining, ADMIN);
    assert_eq!(r, Ok(BuybackPlan::Skip));
}

#[test]
fn buy_back_rejects_wrong_id_and_target() {
    let l = initialize("game".to_owned(), 1000, END_TIME, ADMIN, CREATOR, true);
    let remaining = Vec::new();
    let r = buy_back(
        &l,
        &"other".to_owned(),
        BUY_BACK_THRESHOLD + 1,
        JUPITER_PROGRAM_ID,
        &remaining,
        ADMIN,
    );
    assert_eq!(r, Err(LotteryError::InvalidLotteryId));
    let r2 = buy_back(
        &l,
        &"game".to_owned(),
        BUY_BACK_THRESHOLD + 1,
        JUPITER_PROGRAM_ID + 1,
        &remaining,
        ADMIN,
    );
    assert_eq!(r2, Err(LotteryError::Unauthorized));
}

#[test]
fn buy_back_marks_admin_as_signer_and_keeps_policy() {
    let id = "game".to_owned();
    let l = initialize("game".to_owned(), 1000, END_TIME, ADMIN, CREATOR, false);
    let remaining = vec![
        RemainingAccount { key: 50, is_writable: true },
        RemainingAccount { key: ADMIN, is_writable: false },
        RemainingAccount { key: 60, is_writable: false },
    ];
    let r = buy_back(&l, &id, BUY_BACK_THRESHOLD + 1, JUPITER_PROGRAM_ID, &remaining, ADMIN);
    let plan = r.expect("swap plan");
    match plan {
        BuybackPlan::Swap { accounts, return_to_caller } => {
            assert_eq!(
                accounts,
                vec![
                    CallAccount { key: 50, is_signer: false, is_writable: true },
                    CallAccount { key: ADMIN, is_signer: true, is_writable: false },
                    CallAccount { key: 60, is_signer: false, is_writable: false },
                ]
            );
            // The disposition follows the immutable creation-time policy.
            assert!(!return_to_caller);
        }
        BuybackPlan::Skip => panic!("expected a swap plan"),
    }
}
