use vstd::prelude::*;

verus! {

/// Errors specific to the fund program.
#[derive(Debug, Clone, Copy, PartialEq, Eq, Structural)]
pub enum FundError {
    /// Invalid instruction
    InvalidInstruction,
    /// Account is not writeable
    AccountIsNotWriteable,
    /// Only USDC is accepted as investment for fund.
    OnlyUSDCAllowed,
    /// Incorrect token address provided.
    IncorrectTokenAddress,
}

/// The custom error code under which the host reports a fund error.
pub open spec fn fund_error_code(e: FundError) -> u32 {
    match e {
        FundError::InvalidInstruction => 0,
        FundError::AccountIsNotWriteable => 1,
        FundError::OnlyUSDCAllowed => 2,
        FundError::IncorrectTokenAddress => 3,
    }
}

impl FundError {
    /// The custom error code of this error: its position in the declaration.
    pub fn code(self) -> (r: u32)
        ensures
            r == fund_error_code(self),
    {
        match self {
            FundError::InvalidInstruction => 0,
            FundError::AccountIsNotWriteable => 1,
            FundError::OnlyUSDCAllowed => 2,
            FundError::IncorrectTokenAddress => 3,
        }
    }

    /// The human-readable message of this error.
    pub fn message(self) -> (r: &'static str)
        ensures
            r@ == fund_error_message(self),
    {
        match self {
            FundError::InvalidInstruction => "Invalid Instruction",
            FundError::AccountIsNotWriteable => "Account is not writeable",
            FundError::OnlyUSDCAllowed => "Only USDC is accepted as investment for fund.",
            FundError::IncorrectTokenAddress => "Incorrect token address provided",
        }
    }
}

/// The message that goes with each fund error.
pub open spec fn fund_error_message(e: FundError) -> Seq<char> {
    match e {
        FundError::InvalidInstruction => "Invalid Instruction"@,
        FundError::AccountIsNotWriteable => "Account is not writeable"@,
        FundError::OnlyUSDCAllowed => "Only USDC is accepted as investment for fund."@,
        FundError::IncorrectTokenAddress => "Incorrect token address provided"@,
    }
}

/// Every way a call into the program can fail.
///
/// Besides the program's own errors these are the host's generic program
/// errors that the handler raises.
#[derive(Debug, Clone, Copy, PartialEq, Eq, Structural)]
pub enum ProcessError {
    /// One of the program's own errors, reported as a custom code.
    Fund(FundError),
    /// An account is not owned by the token program, or the token program
    /// account is not the token program.
    IncorrectProgramId,
    /// The investor did not sign the transaction.
    MissingRequiredSignature,
    /// Fewer accounts were passed than the instruction needs.
    NotEnoughAccountKeys,
}

} // verus!
