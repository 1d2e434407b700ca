use vstd::bytes::spec_u64_to_le_bytes;
use vstd::prelude::*;

use crate::account::{
    keys_equal, token_program_id, AccountRef, FUND_TOKEN_ACCOUNT_KEY, TOKEN_PROGRAM_ID,
    USDC_ACCOUNT_KEY,
};
use crate::error::{FundError, ProcessError};
use crate::instruction::{instruction_of, FundInstruction};

verus! {

/// An account as an instruction names it.
#[derive(Debug, Clone, Copy)]
pub struct AccountMeta {
    /// The account's address.
    pub pubkey: [u8; 32],
    /// Whether the instruction needs a signature of this account.
    pub is_signer: bool,
    /// Whether the instruction may change this account.
    pub is_writable: bool,
}

/// An instruction for the token program, as plain values.
#[derive(Debug, Clone)]
pub struct TransferInstruction {
    /// The program that runs the instruction.
    pub program_id: [u8; 32],
    /// The accounts the instruction names, in order.
    pub accounts: Vec<AccountMeta>,
    /// The encoded instruction.
    pub data: Vec<u8>,
}

/// A transfer that the host is to perform: the instruction, and the positions
/// in the handler's account list of the accounts it needs.
#[derive(Debug, Clone)]
pub struct PlannedTransfer {
    /// The token program instruction to run.
    pub instruction: TransferInstruction,
    /// The accounts to hand to the token program, by position in the list
    /// that the handler was given.
    pub account_indices: Vec<usize>,
}

/// The tag of the token program's `Transfer` instruction.
pub const TOKEN_TRANSFER_TAG: u8 = 3;

/// `ix` is the token program's `Transfer` of `amount` from `source` to
/// `destination`, authorized by `authority` with `signer` as the one signer.
pub open spec fn is_token_transfer(
    ix: TransferInstruction,
    program: [u8; 32],
    source: [u8; 32],
    destination: [u8; 32],
    authority: [u8; 32],
    signer: [u8; 32],
    amount: u64,
) -> bool {
    &&& ix.program_id == program
    &&& ix.accounts@ == seq![
        AccountMeta { pubkey: source, is_signer: false, is_writable: true },
        AccountMeta { pubkey: destination, is_signer: false, is_writable: true },
        AccountMeta { pubkey: authority, is_signer: false, is_writable: false },
        AccountMeta { pubkey: signer, is_signer: true, is_writable: false },
    ]
    &&& ix.data@ == seq![TOKEN_TRANSFER_TAG].add(spec_u64_to_le_bytes(amount))
}

/// Relies on `spl_token::instruction::transfer`: it refuses a program id other
/// than `spl_token::id()`, and otherwise builds a `Transfer` instruction with
/// the source and destination writable, the authority read-only and not
/// signing (a signer list is given), the signer read-only and signing, and as
/// data the tag 3 followed by the amount in little-endian.
#[verifier::external_body]
fn token_transfer(
    program: &[u8; 32],
    source: &[u8; 32],
    destination: &[u8; 32],
    authority: &[u8; 32],
    signer: &[u8; 32],
    amount: u64,
) -> (r: Option<TransferInstruction>)
    ensures
        r is None <==> program@ != TOKEN_PROGRAM_ID@,
        r matches Some(ix) ==> is_token_transfer(
            ix,
            *program,
            *source,
            *destination,
            *authority,
            *signer,
            amount,
        ),
{
    let key = solana_program::pubkey::Pubkey::new_from_array;
    let ix = spl_token::instruction::transfer(
        &key(*program), &key(*source), &key(*destination), &key(*authority), &[&key(*signer)],
        amount,
    ).ok()?;
    let accounts = ix.accounts.iter().map(
        |m| AccountMeta { pubkey: m.pubkey.to_bytes(), is_signer: m.is_signer, is_writable: m.is_writable },
    ).collect();
    Some(TransferInstruction { program_id: ix.program_id.to_bytes(), accounts, data: ix.data })
}

/// The checks on an account that holds USDC, in order: writable, owned by the
/// token program, and the pinned USDC account.
pub open spec fn usdc_account_check(a: AccountRef) -> Result<(), ProcessError> {
    if !a.is_writable {
        Err(ProcessError::Fund(FundError::AccountIsNotWriteable))
    } else if a.owner@ != TOKEN_PROGRAM_ID@ {
        Err(ProcessError::IncorrectProgramId)
    } else if a.key@ != USDC_ACCOUNT_KEY@ {
        Err(ProcessError::Fund(FundError::OnlyUSDCAllowed))
    } else {
        Ok(())
    }
}

/// The checks on an account that holds fund tokens, in order: writable, owned
/// by the token program, and the pinned fund token account.
pub open spec fn fund_token_account_check(a: AccountRef) -> Result<(), ProcessError> {
    if !a.is_writable {
        Err(ProcessError::Fund(FundError::AccountIsNotWriteable))
    } else if a.owner@ != TOKEN_PROGRAM_ID@ {
        Err(ProcessError::IncorrectProgramId)
    } else if a.key@ != FUND_TOKEN_ACCOUNT_KEY@ {
        Err(ProcessError::Fund(FundError::IncorrectTokenAddress))
    } else {
        Ok(())
    }
}

/// The first failure of an investment over `accs`, taken in order; `None`
/// when there is none.
pub open spec fn invest_failure(accs: Seq<AccountRef>) -> Option<ProcessError> {
    if accs.len() < 1 {
        Some(ProcessError::NotEnoughAccountKeys)
    } else if !accs[0].is_signer {
        Some(ProcessError::MissingRequiredSignature)
    } else if accs.len() < 2 {
        Some(ProcessError::NotEnoughAccountKeys)
    } else if usdc_account_check(accs[1]) is Err {
        Some(usdc_account_check(accs[1])->Err_0)
    } else if accs.len() < 3 {
        Some(ProcessError::NotEnoughAccountKeys)
    } else if fund_token_account_check(accs[2]) is Err {
        Some(fund_token_account_check(accs[2])->Err_0)
    } else if accs.len() < 4 {
        Some(ProcessError::NotEnoughAccountKeys)
    } else if usdc_account_check(accs[3]) is Err {
        Some(usdc_account_check(accs[3])->Err_0)
    } else if accs.len() < 5 {
        Some(ProcessError::NotEnoughAccountKeys)
    } else if fund_token_account_check(accs[4]) is Err {
        Some(fund_token_account_check(accs[4])->Err_0)
    } else if accs.len() < 8 {
        Some(ProcessError::NotEnoughAccountKeys)
    } else if accs[7].key@ != TOKEN_PROGRAM_ID@ {
        Some(ProcessError::IncorrectProgramId)
    } else {
        None
    }
}

/// The deposit: `amount` USDC from the investor's USDC account to the fund's,
/// signed by the investor.
pub open spec fn is_deposit(t: PlannedTransfer, accs: Seq<AccountRef>, amount: u64) -> bool {
    &&& is_token_transfer(
        t.instruction,
        accs[7].key,
        accs[1].key,
        accs[3].key,
        accs[0].key,
        accs[0].key,
        amount,
    )
    &&& t.account_indices@ == seq![1usize, 3, 0, 7]
}

/// The issue: `amount` fund tokens from the fund's token account to the
/// investor's, signed by the fund's primary account.
pub open spec fn is_issue(t: PlannedTransfer, accs: Seq<AccountRef>, amount: u64) -> bool {
    &&& is_token_transfer(
        t.instruction,
        accs[7].key,
        accs[4].key,
        accs[2].key,
        accs[5].key,
        accs[5].key,
        amount,
    )
    &&& t.account_indices@ == seq![4usize, 2, 5, 7]
}

/// What an investment of `amount` over `accs` returns: the first failure, or
/// the deposit followed by the issue, both of the same amount.
pub open spec fn invest_outcome(
    r: Result<Vec<PlannedTransfer>, ProcessError>,
    accs: Seq<AccountRef>,
    amount: u64,
) -> bool {
    match invest_failure(accs) {
        Some(e) => r == Err::<Vec<PlannedTransfer>, ProcessError>(e),
        None => {
            &&& r is Ok
            &&& r->Ok_0@.len() == 2
            &&& is_deposit(r->Ok_0@[0], accs, amount)
            &&& is_issue(r->Ok_0@[1], accs, amount)
        },
    }
}

/// The program's instruction processor.
pub struct Processor;

impl Processor {
    /// Decodes `instruction_data` and plans the transfers it asks for, in the
    /// order the host is to perform them.
    pub fn process(
        program_id: &[u8; 32],
        accounts: &[AccountRef],
        instruction_data: &[u8],
    ) -> (r: Result<Vec<PlannedTransfer>, ProcessError>)
        ensures
            match instruction_of(instruction_data@) {
                Err(e) => r == Err::<Vec<PlannedTransfer>, ProcessError>(e),
                Ok(FundInstruction::Invest { amount }) => invest_outcome(r, accounts@, amount),
            },
    {
        let instruction = match FundInstruction::unpack(instruction_data) {
            Ok(instruction) => instruction,
            Err(e) => return Err(e),
        };
        match instruction {
            FundInstruction::Invest { amount } => {
                Self::process_invest_fund(accounts, amount, program_id)
            },
        }
    }

    /// Checks an account that is to hold USDC.
    pub fn check_usdc_account_constraints(account: &AccountRef) -> (r: Result<(), ProcessError>)
        ensures
            r == usdc_account_check(*account),
            !account.is_writable ==> r == Err::<(), ProcessError>(
                ProcessError::Fund(FundError::AccountIsNotWriteable),
            ),
            account.is_writable && account.owner@ == TOKEN_PROGRAM_ID@ && account.key@
                != USDC_ACCOUNT_KEY@ ==> r == Err::<(), ProcessError>(
                ProcessError::Fund(FundError::OnlyUSDCAllowed),
            ),
    {
        if !account.is_writable {
            return Err(ProcessError::Fund(FundError::AccountIsNotWriteable));
        }
        let token_program = token_program_id();
        if !keys_equal(&account.owner, &token_program) {
            return Err(ProcessError::IncorrectProgramId);
        }
        if !keys_equal(&account.key, &USDC_ACCOUNT_KEY) {
            return Err(ProcessError::Fund(FundError::OnlyUSDCAllowed));
        }
        Ok(())
    }

    /// Checks an account that is to hold fund tokens.
    pub fn check_fund_token_account_constraints(account: &AccountRef) -> (r: Result<
        (),
        ProcessError,
    >)
        ensures
            r == fund_token_account_check(*account),
            !account.is_writable ==> r == Err::<(), ProcessError>(
                ProcessError::Fund(FundError::AccountIsNotWriteable),
            ),
            account.is_writable && account.owner@ == TOKEN_PROGRAM_ID@ && account.key@
                != FUND_TOKEN_ACCOUNT_KEY@ ==> r == Err::<(), ProcessError>(
                ProcessError::Fund(FundError::IncorrectTokenAddress),
            ),
    {
        if !account.is_writable {
            return Err(ProcessError::Fund(FundError::AccountIsNotWriteable));
        }
        let token_program = token_program_id();
        if !keys_equal(&account.owner, &token_program) {
            return Err(ProcessError::IncorrectProgramId);
        }
        if !keys_equal(&account.key, &FUND_TOKEN_ACCOUNT_KEY) {
            return Err(ProcessError::Fund(FundError::IncorrectTokenAddress));
        }
        Ok(())
    }

    /// Validates the accounts of an investment of `amount` and plans its two
    /// transfers: the investor's USDC to the fund, then as many fund tokens
    /// from the fund to the investor.
    pub fn process_invest_fund(
        accounts: &[AccountRef],
        amount: u64,
        _program_id: &[u8; 32],
    ) -> (r: Result<Vec<PlannedTransfer>, ProcessError>)
        ensures
            invest_outcome(r, accounts@, amount),
            accounts@.len() >= 1 && !accounts@[0].is_signer ==> r == Err::<
                Vec<PlannedTransfer>,
                ProcessError,
            >(ProcessError::MissingRequiredSignature),
            accounts@.len() >= 2 && accounts@[0].is_signer && !accounts@[1].is_writable ==> r
                == Err::<Vec<PlannedTransfer>, ProcessError>(
                ProcessError::Fund(FundError::AccountIsNotWriteable),
            ),
    {
        if accounts.len() < 1 {
            return Err(ProcessError::NotEnoughAccountKeys);
        }
        let investor = accounts[0];
        if !investor.is_signer {
            return Err(ProcessError::MissingRequiredSignature);
        }
        if accounts.len() < 2 {
            return Err(ProcessError::NotEnoughAccountKeys);
        }
        let investors_usdc_account = accounts[1];
        match Self::check_usdc_account_constraints(&investors_usdc_account) {
            Ok(()) => {},
            Err(e) => return Err(e),
        }
        if accounts.len() < 3 {
            return Err(ProcessError::NotEnoughAccountKeys);
        }
        let investors_token_account = accounts[2];
        match Self::check_fund_token_account_constraints(&investors_token_account) {
            Ok(()) => {},
            Err(e) => return Err(e),
        }
        if accounts.len() < 4 {
            return Err(ProcessError::NotEnoughAccountKeys);
        }
        let funds_usdc_account = accounts[3];
        match Self::check_usdc_account_constraints(&funds_usdc_account) {
            Ok(()) => {},
            Err(e) => return Err(e),
        }
        if accounts.len() < 5 {
            return Err(ProcessError::NotEnoughAccountKeys);
        }
        let funds_token_account = accounts[4];
        match Self::check_fund_token_account_constraints(&funds_token_account) {
            Ok(()) => {},
            Err(e) => return Err(e),
        }
        if accounts.len() < 8 {
            return Err(ProcessError::NotEnoughAccountKeys);
        }
        let funds_primary_account = accounts[5];
        let token_program = accounts[7];

        let deposit = match token_transfer(
            &token_program.key,
            &investors_usdc_account.key,
            &funds_usdc_account.key,
            &investor.key,
            &investor.key,
            amount,
        ) {
            Some(ix) => ix,
            None => return Err(ProcessError::IncorrectProgramId),
        };
        // A new fund offer: one USDC buys one fund token, from a pre-minted supply.
        let issue = match token_transfer(
            &token_program.key,
            &funds_token_account.key,
            &investors_token_account.key,
            &funds_primary_account.key,
            &funds_primary_account.key,
            amount,
        ) {
            Some(ix) => ix,
            None => return Err(ProcessError::IncorrectProgramId),
        };
        let mut transfers: Vec<PlannedTransfer> = Vec::new();
        transfers.push(PlannedTransfer { instruction: deposit, account_indices: vec![1, 3, 0, 7] });
        transfers.push(PlannedTransfer { instruction: issue, account_indices: vec![4, 2, 5, 7] });
        Ok(transfers)
    }
}

} // verus!
