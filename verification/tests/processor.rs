use lottery::error::LotteryError;
use lottery::processor::{AccountRef, Effects, Processor, ENTRY_FEE_LAMPORTS};
use lottery::state::{Lottery, Pubkey, RECORD_LEN};

fn key(b: u8) -> Pubkey {
    Pubkey::from_bytes(vec![b; 32])
}

const INIT: [u8; 1] = [0];
const PLAY: [u8; 1] = [1];
const DRAW: [u8; 1] = [2];

/// A miniature ledger: one storage region plus per-identity balances held
/// by the test. Effects returned by the processor are applied here, the way
/// the runtime adapter would.
struct Region {
    key: Pubkey,
    owner: Pubkey,
    lamports: u64,
    data: Vec<u8>,
}

fn fresh_region(program: &Pubkey) -> Region {
    Region {
        key: key(200),
        owner: program.clone(),
        lamports: 10_000_000,
        data: vec![0u8; RECORD_LEN],
    }
}

fn account(k: &Pubkey, signer: bool, lamports: u64, owner: &Pubkey, data: &[u8]) -> AccountRef {
    AccountRef {
        key: k.clone(),
        is_signer: signer,
        lamports,
        owner: owner.clone(),
        data: data.to_vec(),
    }
}

fn system_account() -> AccountRef {
    account(&key(250), false, 1, &key(251), &[])
}

/// Runs Initialize by `manager` and applies the effect.
fn do_init(program: &Pubkey, region: &mut Region, manager: &Pubkey) -> Result<(), LotteryError> {
    let accounts = vec![
        account(manager, true, 5_000_000_000, &key(252), &[]),
        account(&region.key, false, region.lamports, &region.owner, &region.data),
        account(&key(253), false, 1, &key(251), &[]),
    ];
    match Processor::process(program, &accounts, true, &INIT)? {
        Effects::Initialized { new_data } => {
            region.data = new_data;
            Ok(())
        }
        _ => panic!("Initialize produced an unexpected effect"),
    }
}

/// Runs Enter by `player` (with balance `*player_lamports`) and applies the
/// effects.
fn do_play(
    program: &Pubkey,
    region: &mut Region,
    player: &Pubkey,
    player_lamports: &mut u64,
) -> Result<(), LotteryError> {
    let accounts = vec![
        account(player, true, *player_lamports, &key(252), &[]),
        system_account(),
        account(&region.key, false, region.lamports, &region.owner, &region.data),
    ];
    match Processor::process(program, &accounts, true, &PLAY)? {
        Effects::Entered { fee, new_data } => {
            assert!(fee.from == *player);
            assert!(fee.to == region.key);
            *player_lamports -= fee.amount;
            region.lamports += fee.amount;
            region.data = new_data;
            Ok(())
        }
        _ => panic!("Enter produced an unexpected effect"),
    }
}

/// Runs Draw by `claimant` and applies the effects.
fn do_draw(
    program: &Pubkey,
    region: &mut Region,
    claimant: &Pubkey,
    claimant_lamports: &mut u64,
) -> Result<(), LotteryError> {
    let accounts = vec![
        account(claimant, true, *claimant_lamports, &key(252), &[]),
        account(&region.key, false, region.lamports, &region.owner, &region.data),
    ];
    match Processor::process(program, &accounts, true, &DRAW)? {
        Effects::Drawn { winner, payout, new_data } => {
            assert!(winner == *claimant);
            assert_eq!(payout, region.lamports);
            *claimant_lamports += payout;
            region.lamports = 0;
            region.data = new_data;
            Ok(())
        }
        _ => panic!("Draw produced an unexpected effect"),
    }
}

#[test]
fn scenario_initialize_binds_the_manager() {
    let program = key(100);
    let mut region = fresh_region(&program);
    let manager = key(10);
    do_init(&program, &mut region, &manager).unwrap();
    let rec = Lottery::unpack(&region.data).unwrap();
    assert!(rec.is_initialized());
    assert!(rec.manager_pubkey == manager);
    assert_eq!(rec.p_current_idx, 0);
    assert!(rec.participants[0] == key(0));
    assert!(rec.participants[1] == key(0));
    assert!(rec.participants[2] == key(0));
}

#[test]
fn scenario_three_enters_fill_the_record_and_the_pool() {
    let program = key(100);
    let mut region = fresh_region(&program);
    do_init(&program, &mut region, &key(10)).unwrap();
    let pool_before = region.lamports;

    let players = [key(21), key(22), key(23)];
    let mut balances = [2_000_000_000u64; 3];
    for i in 0..3 {
        do_play(&program, &mut region, &players[i], &mut balances[i]).unwrap();
    }

    let rec = Lottery::unpack(&region.data).unwrap();
    assert_eq!(rec.p_current_idx, 3);
    assert!(rec.participants[0] == players[0]);
    assert!(rec.participants[1] == players[1]);
    assert!(rec.participants[2] == players[2]);
    assert_eq!(region.lamports, pool_before + 3 * ENTRY_FEE_LAMPORTS);
    for b in balances {
        assert_eq!(b, 2_000_000_000 - ENTRY_FEE_LAMPORTS);
    }
}

#[test]
fn scenario_draw_by_the_authority_pays_out_the_pool() {
    let program = key(100);
    let mut region = fresh_region(&program);
    let manager = key(10);
    do_init(&program, &mut region, &manager).unwrap();
    let mut balances = [2_000_000_000u64; 3];
    for (i, p) in [key(21), key(22), key(23)].iter().enumerate() {
        do_play(&program, &mut region, p, &mut balances[i]).unwrap();
    }

    let pool = region.lamports;
    let mut manager_lamports = 7u64;
    do_draw(&program, &mut region, &manager, &mut manager_lamports).unwrap();
    assert_eq!(manager_lamports, 7 + pool);
    assert_eq!(region.lamports, 0);
    // The record is written back spent: further operations are rejected.
    assert_eq!(
        Lottery::unpack(&region.data).unwrap_err(),
        LotteryError::UninitializedAccount
    );
}

#[test]
fn scenario_draw_by_a_non_authority_fails_and_moves_nothing() {
    let program = key(100);
    let mut region = fresh_region(&program);
    do_init(&program, &mut region, &key(10)).unwrap();
    let mut balances = [2_000_000_000u64; 3];
    let players = [key(21), key(22), key(23)];
    for i in 0..3 {
        do_play(&program, &mut region, &players[i], &mut balances[i]).unwrap();
    }

    let pool = region.lamports;
    let data_before = region.data.clone();
    let mut p1_lamports = balances[0];
    let err = do_draw(&program, &mut region, &players[0], &mut p1_lamports).unwrap_err();
    assert_eq!(err, LotteryError::AuthorityMismatch);
    assert_eq!(region.lamports, pool);
    assert_eq!(region.data, data_before);
    assert_eq!(p1_lamports, balances[0]);
}

#[test]
fn a_fourth_enter_fails_with_capacity_exceeded() {
    let program = key(100);
    let mut region = fresh_region(&program);
    do_init(&program, &mut region, &key(10)).unwrap();
    let mut balances = [2_000_000_000u64; 4];
    let players = [key(21), key(22), key(23), key(24)];
    for i in 0..3 {
        do_play(&program, &mut region, &players[i], &mut balances[i]).unwrap();
    }
    let data_before = region.data.clone();
    let pool = region.lamports;
    let err = do_play(&program, &mut region, &players[3], &mut balances[3]).unwrap_err();
    assert_eq!(err, LotteryError::CapacityExceeded);
    assert_eq!(region.data, data_before);
    assert_eq!(region.lamports, pool);
    assert_eq!(balances[3], 2_000_000_000);
}

#[test]
fn draw_before_three_entrants_fails_with_entrants_incomplete() {
    let program = key(100);
    let mut region = fresh_region(&program);
    let manager = key(10);
    do_init(&program, &mut region, &manager).unwrap();
    let mut b = 2_000_000_000u64;
    do_play(&program, &mut region, &key(21), &mut b).unwrap();
    let mut m = 0u64;
    // Even the authority is rejected while slots remain open.
    let err = do_draw(&program, &mut region, &manager, &mut m).unwrap_err();
    assert_eq!(err, LotteryError::EntrantsIncomplete);
}

#[test]
fn initialize_twice_fails_with_already_initialized() {
    let program = key(100);
    let mut region = fresh_region(&program);
    do_init(&program, &mut region, &key(10)).unwrap();
    let data_before = region.data.clone();
    let err = do_init(&program, &mut region, &key(11)).unwrap_err();
    assert_eq!(err, LotteryError::AccountAlreadyInitialized);
    // A failure carries no effects: the bound authority is unchanged.
    assert_eq!(region.data, data_before);
    let rec = Lottery::unpack(&region.data).unwrap();
    assert!(rec.manager_pubkey == key(10));
}

#[test]
fn initialize_requires_a_signer() {
    let program = key(100);
    let region = fresh_region(&program);
    let accounts = vec![
        account(&key(10), false, 0, &key(252), &[]),
        account(&region.key, false, region.lamports, &region.owner, &region.data),
        account(&key(253), false, 1, &key(251), &[]),
    ];
    assert_eq!(
        Processor::process(&program, &accounts, true, &INIT).unwrap_err(),
        LotteryError::MissingRequiredSignature
    );
}

#[test]
fn initialize_requires_program_ownership() {
    let program = key(100);
    let foreign = key(101);
    let region = Region {
        owner: foreign,
        ..fresh_region(&program)
    };
    let accounts = vec![
        account(&key(10), true, 0, &key(252), &[]),
        account(&region.key, false, region.lamports, &region.owner, &region.data),
        account(&key(253), false, 1, &key(251), &[]),
    ];
    assert_eq!(
        Processor::process(&program, &accounts, true, &INIT).unwrap_err(),
        LotteryError::IncorrectProgramId
    );
}

#[test]
fn initialize_requires_sufficient_funding() {
    let program = key(100);
    let region = fresh_region(&program);
    let accounts = vec![
        account(&key(10), true, 0, &key(252), &[]),
        account(&region.key, false, region.lamports, &region.owner, &region.data),
        account(&key(253), false, 1, &key(251), &[]),
    ];
    assert_eq!(
        Processor::process(&program, &accounts, false, &INIT).unwrap_err(),
        LotteryError::NotRentExempt
    );
}

#[test]
fn enter_requires_the_fee_balance() {
    let program = key(100);
    let mut region = fresh_region(&program);
    do_init(&program, &mut region, &key(10)).unwrap();
    let accounts = vec![
        account(&key(21), true, ENTRY_FEE_LAMPORTS - 1, &key(252), &[]),
        system_account(),
        account(&region.key, false, region.lamports, &region.owner, &region.data),
    ];
    assert_eq!(
        Processor::process(&program, &accounts, true, &PLAY).unwrap_err(),
        LotteryError::InsufficientFunds
    );
}

#[test]
fn enter_rejects_an_uninitialized_region() {
    let program = key(100);
    let region = fresh_region(&program);
    let accounts = vec![
        account(&key(21), true, 2_000_000_000, &key(252), &[]),
        system_account(),
        account(&region.key, false, region.lamports, &region.owner, &region.data),
    ];
    assert_eq!(
        Processor::process(&program, &accounts, true, &PLAY).unwrap_err(),
        LotteryError::UninitializedAccount
    );
}

#[test]
fn enter_rejects_a_corrupt_region() {
    let program = key(100);
    let mut region = fresh_region(&program);
    region.data[0] = 2;
    let accounts = vec![
        account(&key(21), true, 2_000_000_000, &key(252), &[]),
        system_account(),
        account(&region.key, false, region.lamports, &region.owner, &region.data),
    ];
    assert_eq!(
        Processor::process(&program, &accounts, true, &PLAY).unwrap_err(),
        LotteryError::InvalidAccountData
    );
}

#[test]
fn missing_accounts_are_reported() {
    let program = key(100);
    let accounts = vec![account(&key(10), true, 0, &key(252), &[])];
    assert_eq!(
        Processor::process(&program, &accounts, true, &DRAW).unwrap_err(),
        LotteryError::NotEnoughAccountKeys
    );
    let none: Vec<AccountRef> = vec![];
    assert_eq!(
        Processor::process(&program, &none, true, &PLAY).unwrap_err(),
        LotteryError::NotEnoughAccountKeys
    );
}

#[test]
fn unknown_tags_reach_no_handler() {
    let program = key(100);
    let none: Vec<AccountRef> = vec![];
    assert_eq!(
        Processor::process(&program, &none, true, &[9]).unwrap_err(),
        LotteryError::InvalidInstruction
    );
    assert_eq!(
        Processor::process(&program, &none, true, &[]).unwrap_err(),
        LotteryError::InvalidInstruction
    );
}
