use std::str::FromStr;

use fund_invest::account::{AccountRef, FUND_TOKEN_ACCOUNT_KEY, TOKEN_PROGRAM_ID, USDC_ACCOUNT_KEY};
use fund_invest::error::{FundError, ProcessError};
use fund_invest::instruction::FundInstruction;
use fund_invest::processor::{PlannedTransfer, Processor};
use solana_program::pubkey::Pubkey;

const INVESTOR: [u8; 32] = [11; 32];
const FUND_PRIMARY: [u8; 32] = [22; 32];
const RENT_SYSVAR: [u8; 32] = [33; 32];
const SYSTEM_OWNER: [u8; 32] = [0; 32];
const PROGRAM: [u8; 32] = [44; 32];

fn account(key: [u8; 32], owner: [u8; 32], is_signer: bool, is_writable: bool) -> AccountRef {
    AccountRef { key, owner, is_signer, is_writable }
}

fn well_formed_accounts() -> Vec<AccountRef> {
    vec![
        account(INVESTOR, SYSTEM_OWNER, true, false),
        account(USDC_ACCOUNT_KEY, TOKEN_PROGRAM_ID, false, true),
        account(FUND_TOKEN_ACCOUNT_KEY, TOKEN_PROGRAM_ID, false, true),
        account(USDC_ACCOUNT_KEY, TOKEN_PROGRAM_ID, false, true),
        account(FUND_TOKEN_ACCOUNT_KEY, TOKEN_PROGRAM_ID, false, true),
        account(FUND_PRIMARY, SYSTEM_OWNER, false, false),
        account(RENT_SYSVAR, SYSTEM_OWNER, false, false),
        account(TOKEN_PROGRAM_ID, SYSTEM_OWNER, false, false),
    ]
}

fn invest_payload(amount: u64) -> Vec<u8> {
    let mut data = vec![0u8];
    data.extend_from_slice(&amount.to_le_bytes());
    data
}

fn transfer_data(amount: u64) -> Vec<u8> {
    let mut data = vec![3u8];
    data.extend_from_slice(&amount.to_le_bytes());
    data
}

fn invalid() -> ProcessError {
    ProcessError::Fund(FundError::InvalidInstruction)
}

fn assert_transfer(
    t: &PlannedTransfer,
    source: [u8; 32],
    destination: [u8; 32],
    authority: [u8; 32],
    amount: u64,
    indices: &[usize],
) {
    let ix = &t.instruction;
    assert_eq!(ix.program_id, TOKEN_PROGRAM_ID);
    assert_eq!(ix.accounts.len(), 4);
    assert_eq!(ix.accounts[0].pubkey, source);
    assert!(ix.accounts[0].is_writable && !ix.accounts[0].is_signer);
    assert_eq!(ix.accounts[1].pubkey, destination);
    assert!(ix.accounts[1].is_writable && !ix.accounts[1].is_signer);
    assert_eq!(ix.accounts[2].pubkey, authority);
    assert!(!ix.accounts[2].is_writable && !ix.accounts[2].is_signer);
    assert_eq!(ix.accounts[3].pubkey, authority);
    assert!(!ix.accounts[3].is_writable && ix.accounts[3].is_signer);
    assert_eq!(ix.data, transfer_data(amount));
    assert_eq!(t.account_indices, indices.to_vec());
}

#[test]
fn pinned_keys_match_their_addresses() {
    assert_eq!(spl_token::id().to_bytes(), TOKEN_PROGRAM_ID);
    let usdc = Pubkey::from_str("CpMah17kQEL2wqyMKt3mZBdTnZbkbfx4nqmQMFDP5vwp").unwrap();
    assert_eq!(usdc.to_bytes(), USDC_ACCOUNT_KEY);
    assert_eq!(usdc.to_bytes(), FUND_TOKEN_ACCOUNT_KEY);
}

#[test]
fn decode_invest_amount() {
    let r = FundInstruction::unpack(&invest_payload(1_000_000));
    assert_eq!(r, Ok(FundInstruction::Invest { amount: 1_000_000 }));
    let r = FundInstruction::unpack(&[0, 1, 2, 0, 0, 0, 0, 0, 0]);
    assert_eq!(r, Ok(FundInstruction::Invest { amount: 0x0201 }));
}

#[test]
fn decode_round_trip_with_trailing_bytes() {
    for amount in [0u64, 1, 255, 256, 1_000_000, u64::MAX] {
        let mut data = invest_payload(amount);
        assert_eq!(FundInstruction::unpack(&data), Ok(FundInstruction::Invest { amount }));
        data.extend_from_slice(&[9, 9, 9]);
        assert_eq!(FundInstruction::unpack(&data), Ok(FundInstruction::Invest { amount }));
    }
}

#[test]
fn decode_short_inputs_fail() {
    for len in 0..9usize {
        let data = vec![0u8; len];
        assert_eq!(FundInstruction::unpack(&data), Err(invalid()));
    }
}

#[test]
fn decode_nonzero_tag_fails() {
    for tag in 1..=255u8 {
        let mut data = invest_payload(5);
        data[0] = tag;
        assert_eq!(FundInstruction::unpack(&data), Err(invalid()));
    }
}

#[test]
fn unpack_amount_reads_eight_bytes() {
    assert_eq!(FundInstruction::unpack_amount(&[1, 0, 0, 0, 0, 0, 0, 1, 7]), Ok(0x0100_0000_0000_0001));
    assert_eq!(FundInstruction::unpack_amount(&[1, 2, 3, 4, 5, 6, 7]), Err(invalid()));
}

#[test]
fn error_codes_and_messages() {
    assert_eq!(FundError::InvalidInstruction.code(), 0);
    assert_eq!(FundError::AccountIsNotWriteable.code(), 1);
    assert_eq!(FundError::OnlyUSDCAllowed.code(), 2);
    assert_eq!(FundError::IncorrectTokenAddress.code(), 3);
    assert_eq!(FundError::InvalidInstruction.message(), "Invalid Instruction");
    assert_eq!(FundError::OnlyUSDCAllowed.message(), "Only USDC is accepted as investment for fund.");
}

#[test]
fn scenario_a_invest_plans_both_transfers() {
    let accounts = well_formed_accounts();
    let plan = Processor::process(&PROGRAM, &accounts, &invest_payload(1_000_000)).unwrap();
    assert_eq!(plan.len(), 2);
    assert_transfer(&plan[0], USDC_ACCOUNT_KEY, USDC_ACCOUNT_KEY, INVESTOR, 1_000_000, &[1, 3, 0, 7]);
    assert_transfer(&plan[1], FUND_TOKEN_ACCOUNT_KEY, FUND_TOKEN_ACCOUNT_KEY, FUND_PRIMARY, 1_000_000, &[4, 2, 5, 7]);
}

#[test]
fn scenario_b_missing_signature() {
    let mut accounts = well_formed_accounts();
    accounts[0].is_signer = false;
    let r = Processor::process(&PROGRAM, &accounts, &invest_payload(1_000_000));
    assert_eq!(r.unwrap_err(), ProcessError::MissingRequiredSignature);
}

#[test]
fn scenario_c_payload_without_amount() {
    let r = Processor::process(&PROGRAM, &[], &[0]);
    assert_eq!(r.unwrap_err(), invalid());
    let r = Processor::process(&PROGRAM, &well_formed_accounts(), &[0]);
    assert_eq!(r.unwrap_err(), invalid());
}

#[test]
fn scenario_d_unpinned_usdc_account() {
    let mut accounts = well_formed_accounts();
    accounts[1].key = [77; 32];
    let r = Processor::process(&PROGRAM, &accounts, &invest_payload(1_000_000));
    assert_eq!(r.unwrap_err(), ProcessError::Fund(FundError::OnlyUSDCAllowed));
}

#[test]
fn signer_checked_before_accounts() {
    let accounts = vec![account(INVESTOR, SYSTEM_OWNER, false, false)];
    let r = Processor::process_invest_fund(&accounts, 10, &PROGRAM);
    assert_eq!(r.unwrap_err(), ProcessError::MissingRequiredSignature);
    let mut accounts = well_formed_accounts();
    accounts[0].is_signer = false;
    accounts[1].is_writable = false;
    accounts[7].key = [1; 32];
    let r = Processor::process_invest_fund(&accounts, 10, &PROGRAM);
    assert_eq!(r.unwrap_err(), ProcessError::MissingRequiredSignature);
}

#[test]
fn read_only_account_never_passes() {
    let ro = account(USDC_ACCOUNT_KEY, TOKEN_PROGRAM_ID, false, false);
    let not_writable = Err(ProcessError::Fund(FundError::AccountIsNotWriteable));
    assert_eq!(Processor::check_usdc_account_constraints(&ro), not_writable);
    assert_eq!(Processor::check_fund_token_account_constraints(&ro), not_writable);
    let mut accounts = well_formed_accounts();
    accounts[1].is_writable = false;
    let r = Processor::process_invest_fund(&accounts, 10, &PROGRAM);
    assert_eq!(r.unwrap_err(), ProcessError::Fund(FundError::AccountIsNotWriteable));
}

#[test]
fn wrong_owner_is_incorrect_program_id() {
    let a = account(USDC_ACCOUNT_KEY, SYSTEM_OWNER, false, true);
    assert_eq!(Processor::check_usdc_account_constraints(&a), Err(ProcessError::IncorrectProgramId));
    assert_eq!(Processor::check_fund_token_account_constraints(&a), Err(ProcessError::IncorrectProgramId));
}

#[test]
fn unpinned_identity_is_rejected_per_role() {
    let a = account([5; 32], TOKEN_PROGRAM_ID, false, true);
    assert_eq!(
        Processor::check_usdc_account_constraints(&a),
        Err(ProcessError::Fund(FundError::OnlyUSDCAllowed))
    );
    assert_eq!(
        Processor::check_fund_token_account_constraints(&a),
        Err(ProcessError::Fund(FundError::IncorrectTokenAddress))
    );
    let mut accounts = well_formed_accounts();
    accounts[4].key = [5; 32];
    let r = Processor::process_invest_fund(&accounts, 10, &PROGRAM);
    assert_eq!(r.unwrap_err(), ProcessError::Fund(FundError::IncorrectTokenAddress));
}

#[test]
fn pinned_accounts_pass() {
    let usdc = account(USDC_ACCOUNT_KEY, TOKEN_PROGRAM_ID, false, true);
    assert_eq!(Processor::check_usdc_account_constraints(&usdc), Ok(()));
    let token = account(FUND_TOKEN_ACCOUNT_KEY, TOKEN_PROGRAM_ID, false, true);
    assert_eq!(Processor::check_fund_token_account_constraints(&token), Ok(()));
}

#[test]
fn short_account_list_fails() {
    let accounts = well_formed_accounts();
    for len in 0..8usize {
        let r = Processor::process_invest_fund(&accounts[..len], 10, &PROGRAM);
        assert_eq!(r.unwrap_err(), ProcessError::NotEnoughAccountKeys);
    }
    let mut longer = well_formed_accounts();
    longer.push(account([9; 32], SYSTEM_OWNER, false, false));
    assert!(Processor::process_invest_fund(&longer, 10, &PROGRAM).is_ok());
}

#[test]
fn wrong_token_program_account_fails() {
    let mut accounts = well_formed_accounts();
    accounts[7].key = [1; 32];
    let r = Processor::process_invest_fund(&accounts, 10, &PROGRAM);
    assert_eq!(r.unwrap_err(), ProcessError::IncorrectProgramId);
}

#[test]
fn invest_zero_and_max_amounts() {
    for amount in [0u64, u64::MAX] {
        let plan = Processor::process(&PROGRAM, &well_formed_accounts(), &invest_payload(amount)).unwrap();
        assert_eq!(plan[0].instruction.data, transfer_data(amount));
        assert_eq!(plan[1].instruction.data, transfer_data(amount));
    }
}
