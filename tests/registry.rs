use user_registry::{
    deposit, find_user_address, initialize_user, verify_user_address, CustomError, InitializeUser,
    ModifyBalance, Pubkey, RecordAccount, RecordState, SignerAccount, UserAccount,
    USER_ACCOUNT_SPACE,
};

fn key(b: u8) -> Pubkey {
    Pubkey::new_from_array([b; 32])
}

fn program() -> Pubkey {
    let mut bytes = [0u8; 32];
    for (i, b) in bytes.iter_mut().enumerate() {
        *b = (i as u8).wrapping_mul(7).wrapping_add(1);
    }
    Pubkey::new_from_array(bytes)
}

fn fresh_request(owner: Pubkey, payer_lamports: u64) -> InitializeUser {
    let (address, _bump) = find_user_address(&program(), &owner).unwrap();
    InitializeUser {
        user_account: RecordAccount {
            address,
            lamports: 0,
            space: 0,
            state: RecordState::Absent,
        },
        user: SignerAccount { key: owner, is_signer: true, lamports: payer_lamports },
        system_program: Pubkey::system_program(),
    }
}

fn record_of(state: &RecordState) -> UserAccount {
    match state {
        RecordState::Present(r) => *r,
        RecordState::Absent => panic!("no record"),
    }
}

fn deposit_request(owner: Pubkey, balance: u64, held: u64, user_lamports: u64) -> ModifyBalance {
    ModifyBalance {
        user_account: RecordAccount {
            address: key(200),
            lamports: held,
            space: USER_ACCOUNT_SPACE,
            state: RecordState::Present(UserAccount { owner, balance, total_bets: 3 }),
        },
        user: SignerAccount { key: owner, is_signer: true, lamports: user_lamports },
        system_program: Pubkey::system_program(),
    }
}

#[test]
fn derivation_is_deterministic() {
    let a = find_user_address(&program(), &key(1)).unwrap();
    let b = find_user_address(&program(), &key(1)).unwrap();
    assert!(a.0 == b.0);
    assert_eq!(a.1, b.1);
}

#[test]
fn distinct_owners_get_distinct_addresses() {
    let a = find_user_address(&program(), &key(1)).unwrap();
    let b = find_user_address(&program(), &key(2)).unwrap();
    assert!(!(a.0 == b.0));
}

#[test]
fn derived_address_is_not_the_owner_key() {
    let (address, _bump) = find_user_address(&program(), &key(1)).unwrap();
    assert!(!(address == key(1)));
    assert!(!(address == program()));
}

#[test]
fn derived_address_depends_on_program() {
    let a = find_user_address(&program(), &key(1)).unwrap();
    let b = find_user_address(&key(9), &key(1)).unwrap();
    assert!(!(a.0 == b.0));
}

#[test]
fn found_address_verifies() {
    let (address, bump) = find_user_address(&program(), &key(4)).unwrap();
    assert!(verify_user_address(&program(), &key(4), &address, bump));
}

#[test]
fn other_owner_or_address_does_not_verify() {
    let (address, bump) = find_user_address(&program(), &key(4)).unwrap();
    assert!(!verify_user_address(&program(), &key(5), &address, bump));
    assert!(!verify_user_address(&program(), &key(4), &key(4), bump));
}

#[test]
fn initialize_user_scenario() {
    let owner = key(11);
    let mut ctx = fresh_request(owner, 2_000_000);
    let address = ctx.user_account.address;
    assert_eq!(initialize_user(&program(), &mut ctx, 1_000_000), Ok(()));
    let record = record_of(&ctx.user_account.state);
    assert!(record.owner == owner);
    assert_eq!(record.balance, 0);
    assert_eq!(record.total_bets, 0);
    assert!(ctx.user_account.address == address);
    assert_eq!(ctx.user.lamports, 1_000_000);
    assert_eq!(ctx.user_account.lamports, 1_000_000);
    assert_eq!(ctx.user_account.space, 56);
}

#[test]
fn initialize_user_twice_fails() {
    let owner = key(12);
    let mut ctx = fresh_request(owner, 5_000_000);
    assert_eq!(initialize_user(&program(), &mut ctx, 1_000_000), Ok(()));
    let lamports = ctx.user.lamports;
    assert_eq!(
        initialize_user(&program(), &mut ctx, 1_000_000),
        Err(CustomError::AccountAlreadyExists)
    );
    let record = record_of(&ctx.user_account.state);
    assert!(record.owner == owner);
    assert_eq!(record.balance, 0);
    assert_eq!(ctx.user.lamports, lamports);
    assert_eq!(ctx.user_account.lamports, 1_000_000);
}

#[test]
fn initialize_user_underfunded() {
    let mut ctx = fresh_request(key(13), 999_999);
    assert_eq!(
        initialize_user(&program(), &mut ctx, 1_000_000),
        Err(CustomError::InsufficientPayerFunds)
    );
    assert!(matches!(ctx.user_account.state, RecordState::Absent));
    assert_eq!(ctx.user.lamports, 999_999);
    assert_eq!(ctx.user_account.lamports, 0);
}

#[test]
fn initialize_user_exact_rent() {
    let mut ctx = fresh_request(key(14), 1_000_000);
    assert_eq!(initialize_user(&program(), &mut ctx, 1_000_000), Ok(()));
    assert_eq!(ctx.user.lamports, 0);
}

#[test]
fn initialize_user_tops_up_prefunded_account() {
    let mut ctx = fresh_request(key(15), 500_000);
    ctx.user_account.lamports = 600_000;
    assert_eq!(initialize_user(&program(), &mut ctx, 1_000_000), Ok(()));
    assert_eq!(ctx.user.lamports, 100_000);
    assert_eq!(ctx.user_account.lamports, 1_000_000);
}

#[test]
fn initialize_user_address_mismatch() {
    let mut ctx = fresh_request(key(16), 2_000_000);
    ctx.user_account.address = key(17);
    assert_eq!(initialize_user(&program(), &mut ctx, 1_000_000), Err(CustomError::AddressMismatch));
    assert!(matches!(ctx.user_account.state, RecordState::Absent));
}

#[test]
fn initialize_user_other_users_address() {
    let mut ctx = fresh_request(key(18), 2_000_000);
    ctx.user_account.address = find_user_address(&program(), &key(19)).unwrap().0;
    assert_eq!(initialize_user(&program(), &mut ctx, 1_000_000), Err(CustomError::AddressMismatch));
}

#[test]
fn initialize_user_unsigned() {
    let mut ctx = fresh_request(key(20), 2_000_000);
    ctx.user.is_signer = false;
    assert_eq!(initialize_user(&program(), &mut ctx, 1_000_000), Err(CustomError::MissingSignature));
    assert_eq!(ctx.user.lamports, 2_000_000);
}

#[test]
fn initialize_user_wrong_system_program() {
    let mut ctx = fresh_request(key(21), 2_000_000);
    ctx.system_program = key(22);
    assert_eq!(initialize_user(&program(), &mut ctx, 1_000_000), Err(CustomError::InvalidProgramId));
}

#[test]
fn deposit_credits_balance() {
    let owner = key(30);
    let mut ctx = deposit_request(owner, 40, 1_000_040, 500);
    assert_eq!(deposit(&mut ctx, 200), Ok(()));
    let record = record_of(&ctx.user_account.state);
    assert_eq!(record.balance, 240);
    assert_eq!(record.total_bets, 3);
    assert_eq!(ctx.user.lamports, 300);
    assert_eq!(ctx.user_account.lamports, 1_000_240);
}

#[test]
fn deposit_whole_funds() {
    let owner = key(31);
    let mut ctx = deposit_request(owner, 0, 10, 500);
    assert_eq!(deposit(&mut ctx, 500), Ok(()));
    assert_eq!(record_of(&ctx.user_account.state).balance, 500);
    assert_eq!(ctx.user.lamports, 0);
}

#[test]
fn deposit_insufficient_funds() {
    let owner = key(32);
    let mut ctx = deposit_request(owner, 40, 100, 500);
    assert_eq!(deposit(&mut ctx, 501), Err(CustomError::InsufficientFunds));
    assert_eq!(record_of(&ctx.user_account.state).balance, 40);
    assert_eq!(ctx.user.lamports, 500);
    assert_eq!(ctx.user_account.lamports, 100);
}

#[test]
fn deposit_by_other_signer() {
    let mut ctx = deposit_request(key(33), 40, 100, 500);
    ctx.user.key = key(34);
    assert_eq!(deposit(&mut ctx, 10), Err(CustomError::UnauthorizedSigner));
    assert_eq!(ctx.user.lamports, 500);
}

#[test]
fn deposit_into_absent_record() {
    let mut ctx = deposit_request(key(35), 0, 0, 500);
    ctx.user_account.state = RecordState::Absent;
    assert_eq!(deposit(&mut ctx, 10), Err(CustomError::AccountNotInitialized));
}

#[test]
fn deposit_unsigned() {
    let mut ctx = deposit_request(key(36), 0, 0, 500);
    ctx.user.is_signer = false;
    assert_eq!(deposit(&mut ctx, 10), Err(CustomError::MissingSignature));
}

#[test]
fn deposit_wrong_system_program() {
    let mut ctx = deposit_request(key(37), 0, 0, 500);
    ctx.system_program = key(1);
    assert_eq!(deposit(&mut ctx, 10), Err(CustomError::InvalidProgramId));
}

#[test]
fn deposit_balance_overflow() {
    let mut ctx = deposit_request(key(38), u64::MAX - 5, 0, 500);
    assert_eq!(deposit(&mut ctx, 6), Err(CustomError::BalanceOverflow));
    assert_eq!(record_of(&ctx.user_account.state).balance, u64::MAX - 5);
    assert_eq!(ctx.user.lamports, 500);
}

#[test]
fn serialize_layout() {
    let record = UserAccount { owner: key(5), balance: 0x0102030405060708, total_bets: 258 };
    let bytes = record.serialize();
    assert_eq!(bytes.len(), USER_ACCOUNT_SPACE);
    assert_eq!(&bytes[0..8], &[211u8, 33, 136, 16, 186, 110, 242, 127]);
    assert_eq!(&bytes[8..40], &[5u8; 32]);
    assert_eq!(&bytes[40..48], &[8u8, 7, 6, 5, 4, 3, 2, 1]);
    assert_eq!(&bytes[48..56], &[2u8, 1, 0, 0, 0, 0, 0, 0]);
}

#[test]
fn serialize_round_trip() {
    let record = UserAccount { owner: key(6), balance: u64::MAX, total_bets: 77 };
    let mut bytes = record.serialize();
    bytes.push(9);
    let back = UserAccount::try_deserialize(&bytes).unwrap();
    assert!(back.owner == record.owner);
    assert_eq!(back.balance, u64::MAX);
    assert_eq!(back.total_bets, 77);
}

#[test]
fn deserialize_errors() {
    let record = UserAccount { owner: key(6), balance: 1, total_bets: 2 };
    let bytes = record.serialize();
    assert_eq!(
        UserAccount::try_deserialize(&bytes[0..7]).unwrap_err(),
        CustomError::AccountDiscriminatorNotFound
    );
    assert_eq!(
        UserAccount::try_deserialize(&bytes[0..55]).unwrap_err(),
        CustomError::AccountDidNotDeserialize
    );
    let mut wrong = bytes.clone();
    wrong[3] ^= 1;
    assert_eq!(
        UserAccount::try_deserialize(&wrong).unwrap_err(),
        CustomError::AccountDiscriminatorMismatch
    );
}
