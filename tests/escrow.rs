use airdrop::address::Address;
use airdrop::authority::{derive_custody_authority, PDA_SEED};
use airdrop::escrow::{
    cancel_airdrop, get_airdrop, initialize_airdrop, plan_cancel_airdrop, plan_get_airdrop,
    plan_initialize_airdrop, AirdropAccount, CancelAirdrop, Caller, EscrowError, GetAirdrop,
    InitializeAirdrop, RecordEffect,
};
use airdrop::ledger::{LedgerOp, TokenSlot};

fn addr(b: u8) -> Address {
    Address::new([b; 32])
}

fn program() -> Address {
    addr(200)
}

fn custody_of(program_id: &Address) -> (Address, u8) {
    derive_custody_authority(program_id).expect("custody authority")
}

const INITIALIZER: u8 = 1;
const SOURCE: u8 = 2;
const CUSTODY: u8 = 3;
const MINT: u8 = 4;
const TAKER: u8 = 5;
const TAKER_SLOT: u8 = 6;

fn slot(key: u8, authority: Address, amount: u64) -> TokenSlot {
    TokenSlot { key: addr(key), mint: addr(MINT), authority, amount }
}

fn create_accounts(source_amount: u64) -> InitializeAirdrop {
    InitializeAirdrop {
        initializer: Caller { key: addr(INITIALIZER), is_signer: true },
        initializer_deposit_token_account: slot(SOURCE, addr(INITIALIZER), source_amount),
        airdrop_account: None,
        airdrop_token_account: slot(CUSTODY, addr(INITIALIZER), 0),
    }
}

fn record(withdraw_amount: u64) -> AirdropAccount {
    AirdropAccount {
        initializer_key: addr(INITIALIZER),
        initializer_deposit_token_account: addr(SOURCE),
        airdrop_token_account: addr(CUSTODY),
        withdraw_amount,
    }
}

fn claim_accounts(rec: Option<AirdropAccount>, custody_amount: u64) -> GetAirdrop {
    let (pda, _) = custody_of(&program());
    GetAirdrop {
        taker: Caller { key: addr(TAKER), is_signer: true },
        taker_receive_token_account: slot(TAKER_SLOT, addr(TAKER), 0),
        airdrop_account: rec,
        airdrop_token_account: slot(CUSTODY, pda, custody_amount),
    }
}

fn cancel_accounts(rec: Option<AirdropAccount>, caller: u8, custody_amount: u64) -> CancelAirdrop {
    let (pda, _) = custody_of(&program());
    CancelAirdrop {
        initializer: Caller { key: addr(caller), is_signer: true },
        initializer_deposit_token_account: slot(SOURCE, addr(INITIALIZER), 0),
        airdrop_account: rec,
        airdrop_token_account: slot(CUSTODY, pda, custody_amount),
    }
}

#[test]
fn derived_authority_matches_the_ledger_derivation() {
    let pid = program();
    let (pda, bump) = custody_of(&pid);
    let expected = anchor_lang::solana_program::pubkey::Pubkey::find_program_address(
        &[&PDA_SEED[..]],
        &anchor_lang::solana_program::pubkey::Pubkey::new_from_array(pid.bytes),
    );
    assert_eq!(pda.bytes, expected.0.to_bytes());
    assert_eq!(bump, expected.1);
    assert_ne!(pda, pid);
    assert_eq!(derive_custody_authority(&pid), Some((pda, bump)));
    assert_ne!(custody_of(&addr(201)).0, pda);
}

#[test]
fn seed_spells_the_program_name() {
    assert_eq!(&PDA_SEED[..], b"streamflow-airdrop");
}

#[test]
fn address_comparison() {
    assert!(addr(7).same(&addr(7)));
    assert!(!addr(7).same(&addr(8)));
    let mut bytes = [7u8; 32];
    bytes[31] = 9;
    assert!(!addr(7).same(&Address::new(bytes)));
}

#[test]
fn record_length_is_fixed() {
    assert_eq!(AirdropAccount::LEN, 104);
}

#[test]
fn create_deposits_and_hands_custody_to_program() {
    let (pda, bump) = custody_of(&program());
    let plan = initialize_airdrop(&program(), &create_accounts(1000), 1000, 100).unwrap();
    assert_eq!(
        plan.ops,
        vec![
            LedgerOp::Transfer { from: addr(SOURCE), to: addr(CUSTODY), amount: 1000, authority: addr(INITIALIZER) },
            LedgerOp::SetAuthority { slot: addr(CUSTODY), current: addr(INITIALIZER), new_authority: pda },
        ]
    );
    assert_eq!(plan.record, RecordEffect::Create(record(100)));
    assert_eq!(plan.bump, bump);
}

#[test]
fn create_allows_claim_equal_to_deposit_and_zero() {
    assert!(initialize_airdrop(&program(), &create_accounts(50), 50, 50).is_ok());
    assert!(initialize_airdrop(&program(), &create_accounts(0), 0, 0).is_ok());
    assert!(initialize_airdrop(&program(), &create_accounts(u64::MAX), u64::MAX, u64::MAX).is_ok());
}

#[test]
fn create_refuses_claim_above_deposit() {
    let r = initialize_airdrop(&program(), &create_accounts(1000), 100, 101);
    assert_eq!(r, Err(EscrowError::PreconditionViolation));
    let mut unsigned = create_accounts(1000);
    unsigned.initializer.is_signer = false;
    assert_eq!(initialize_airdrop(&program(), &unsigned, 100, 101), Err(EscrowError::PreconditionViolation));
}

#[test]
fn create_refuses_short_balance() {
    let r = initialize_airdrop(&program(), &create_accounts(999), 1000, 100);
    assert_eq!(r, Err(EscrowError::PreconditionViolation));
}

#[test]
fn create_refuses_unsigned_initializer() {
    let mut a = create_accounts(1000);
    a.initializer.is_signer = false;
    assert_eq!(initialize_airdrop(&program(), &a, 1000, 100), Err(EscrowError::Unauthorized));
}

#[test]
fn create_checks_the_signature_before_the_balance() {
    let mut a = create_accounts(999);
    a.initializer.is_signer = false;
    assert_eq!(initialize_airdrop(&program(), &a, 1000, 100), Err(EscrowError::Unauthorized));
}

#[test]
fn create_refuses_existing_record() {
    let mut a = create_accounts(1000);
    a.airdrop_account = Some(record(5));
    assert_eq!(initialize_airdrop(&program(), &a, 1000, 100), Err(EscrowError::PreconditionViolation));
}

#[test]
fn create_refuses_custody_in_the_source_slot() {
    let mut a = create_accounts(1000);
    a.airdrop_token_account = a.initializer_deposit_token_account;
    assert_eq!(initialize_airdrop(&program(), &a, 1000, 100), Err(EscrowError::PreconditionViolation));
}

#[test]
fn create_refuses_initializer_posing_as_custody_authority() {
    let a = create_accounts(1000);
    let r = plan_initialize_airdrop(&addr(INITIALIZER), 255, &a, 1000, 100);
    assert_eq!(r, Err(EscrowError::Unauthorized));
    assert!(plan_initialize_airdrop(&addr(99), 255, &a, 1000, 100).is_ok());
}

#[test]
fn claim_pays_the_claim_amount_and_closes_the_record() {
    let (pda, bump) = custody_of(&program());
    let plan = get_airdrop(&program(), &claim_accounts(Some(record(100)), 1000)).unwrap();
    assert_eq!(
        plan.ops,
        vec![LedgerOp::Transfer { from: addr(CUSTODY), to: addr(TAKER_SLOT), amount: 100, authority: pda }]
    );
    assert_eq!(plan.record, RecordEffect::Close { refund_to: addr(INITIALIZER) });
    assert_eq!(plan.bump, bump);
}

#[test]
fn second_claim_and_late_cancel_find_no_record() {
    assert!(get_airdrop(&program(), &claim_accounts(Some(record(100)), 1000)).is_ok());
    // The first claim destroyed the record.
    assert_eq!(get_airdrop(&program(), &claim_accounts(None, 900)), Err(EscrowError::NotFound));
    assert_eq!(cancel_airdrop(&program(), &cancel_accounts(None, INITIALIZER, 900)), Err(EscrowError::NotFound));
}

#[test]
fn claim_refuses_substituted_custody_slot() {
    let mut a = claim_accounts(Some(record(100)), 1000);
    a.airdrop_token_account.key = addr(77);
    assert_eq!(get_airdrop(&program(), &a), Err(EscrowError::Unauthorized));
}

#[test]
fn claim_refuses_unsigned_taker() {
    let mut a = claim_accounts(Some(record(100)), 1000);
    a.taker.is_signer = false;
    assert_eq!(get_airdrop(&program(), &a), Err(EscrowError::Unauthorized));
}

#[test]
fn claim_refuses_unusable_receiving_slot() {
    let mut other_owner = claim_accounts(Some(record(100)), 1000);
    other_owner.taker_receive_token_account.authority = addr(88);
    assert_eq!(get_airdrop(&program(), &other_owner), Err(EscrowError::PreconditionViolation));

    let mut other_mint = claim_accounts(Some(record(100)), 1000);
    other_mint.taker_receive_token_account.mint = addr(89);
    assert_eq!(get_airdrop(&program(), &other_mint), Err(EscrowError::PreconditionViolation));

    let mut into_custody = claim_accounts(Some(record(100)), 1000);
    into_custody.taker_receive_token_account.key = addr(CUSTODY);
    assert_eq!(get_airdrop(&program(), &into_custody), Err(EscrowError::PreconditionViolation));
}

#[test]
fn claim_with_known_authority() {
    let plan = plan_get_airdrop(&addr(42), 7, &claim_accounts(Some(record(30)), 1000)).unwrap();
    assert_eq!(
        plan.ops,
        vec![LedgerOp::Transfer { from: addr(CUSTODY), to: addr(TAKER_SLOT), amount: 30, authority: addr(42) }]
    );
    assert_eq!(plan.bump, 7);
}

#[test]
fn cancel_refunds_the_whole_custody_balance() {
    let (pda, _) = custody_of(&program());
    let plan = cancel_airdrop(&program(), &cancel_accounts(Some(record(100)), INITIALIZER, 1000)).unwrap();
    assert_eq!(
        plan.ops,
        vec![LedgerOp::Transfer { from: addr(CUSTODY), to: addr(SOURCE), amount: 1000, authority: pda }]
    );
    assert_eq!(plan.record, RecordEffect::Close { refund_to: addr(INITIALIZER) });
    // After the cancel, a claim finds no record.
    assert_eq!(get_airdrop(&program(), &claim_accounts(None, 0)), Err(EscrowError::NotFound));
}

#[test]
fn cancel_by_stranger_is_unauthorized() {
    let a = cancel_accounts(Some(record(100)), TAKER, 1000);
    assert_eq!(cancel_airdrop(&program(), &a), Err(EscrowError::Unauthorized));
    assert_eq!(plan_cancel_airdrop(&addr(42), 1, &a), Err(EscrowError::Unauthorized));
}

#[test]
fn cancel_refuses_unsigned_initializer() {
    let mut a = cancel_accounts(Some(record(100)), INITIALIZER, 1000);
    a.initializer.is_signer = false;
    assert_eq!(cancel_airdrop(&program(), &a), Err(EscrowError::Unauthorized));
}

#[test]
fn cancel_refuses_other_refund_slot() {
    let mut a = cancel_accounts(Some(record(100)), INITIALIZER, 1000);
    a.initializer_deposit_token_account.key = addr(66);
    assert_eq!(cancel_airdrop(&program(), &a), Err(EscrowError::Unauthorized));
    let mut b = cancel_accounts(Some(record(100)), INITIALIZER, 1000);
    b.airdrop_token_account.key = addr(67);
    assert_eq!(cancel_airdrop(&program(), &b), Err(EscrowError::Unauthorized));
}

#[test]
fn instruction_helpers_build_the_ledger_calls() {
    let a = create_accounts(10);
    assert_eq!(
        a.transfer_amount_to_airdrop(10),
        LedgerOp::Transfer { from: addr(SOURCE), to: addr(CUSTODY), amount: 10, authority: addr(INITIALIZER) }
    );
    assert_eq!(
        a.into_set_authority_context(&addr(9)),
        LedgerOp::SetAuthority { slot: addr(CUSTODY), current: addr(INITIALIZER), new_authority: addr(9) }
    );
    let c = claim_accounts(Some(record(3)), 10);
    assert_eq!(
        c.into_transfer_to_taker_context(&addr(9), 3),
        LedgerOp::Transfer { from: addr(CUSTODY), to: addr(TAKER_SLOT), amount: 3, authority: addr(9) }
    );
    let k = cancel_accounts(Some(record(3)), INITIALIZER, 10);
    assert_eq!(
        k.refund_to_initilizer(&addr(9)),
        LedgerOp::Transfer { from: addr(CUSTODY), to: addr(SOURCE), amount: 10, authority: addr(9) }
    );
}
