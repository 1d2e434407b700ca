use vstd::bytes::{spec_u64_from_le_bytes, spec_u64_to_le_bytes, u64_from_le_bytes};
use vstd::prelude::*;
use vstd::slice::slice_subrange;

use crate::error::{FundError, ProcessError};

verus! {

/// Instructions supported by the fund program.
#[derive(Debug, Clone, Copy, PartialEq, Eq, Structural)]
pub enum FundInstruction {
    /// Invest in the fund.
    ///
    /// Accounts expected:
    ///
    /// 0. `[signer]` The account of the investor.
    /// 1. `[writable]` The investor's USDC account.
    /// 2. `[writable]` The investor's fund token account.
    /// 3. `[writable]` The fund's USDC account.
    /// 4. `[writable]` The fund's fund token account.
    /// 5. `[]` The fund's primary account.
    /// 6. `[]` The rent sysvar.
    /// 7. `[]` The token program.
    Invest {
        /// The amount of USDC the investor wants to invest.
        amount: u64,
    },
}

/// The tag byte that selects `Invest`.
pub const INVEST_TAG: u8 = 0;

/// The error for a payload that does not decode.
pub open spec fn invalid_instruction() -> ProcessError {
    ProcessError::Fund(FundError::InvalidInstruction)
}

/// The amount read from the front of an instruction body: the first eight
/// bytes, little-endian; the rest is ignored.
pub open spec fn amount_of(body: Seq<u8>) -> Result<u64, ProcessError> {
    if body.len() >= 8 {
        Ok(spec_u64_from_le_bytes(body.subrange(0, 8)))
    } else {
        Err(invalid_instruction())
    }
}

/// What a payload decodes to: a tag byte, then the tag's body.
pub open spec fn instruction_of(input: Seq<u8>) -> Result<FundInstruction, ProcessError> {
    if input.len() >= 1 && input[0] == INVEST_TAG {
        match amount_of(input.subrange(1, input.len() as int)) {
            Ok(amount) => Ok(FundInstruction::Invest { amount }),
            Err(e) => Err(e),
        }
    } else {
        Err(invalid_instruction())
    }
}

/// The payload of an `Invest` of `amount`, as a client writes it.
pub open spec fn invest_payload(amount: u64) -> Seq<u8> {
    seq![INVEST_TAG].add(spec_u64_to_le_bytes(amount))
}

impl FundInstruction {
    /// Decodes an instruction payload.
    pub fn unpack(input: &[u8]) -> (r: Result<Self, ProcessError>)
        ensures
            r == instruction_of(input@),
            input@.len() < 9 ==> r == Err::<Self, ProcessError>(invalid_instruction()),
            input@.len() >= 1 && input@[0] != INVEST_TAG ==> r == Err::<Self, ProcessError>(
                invalid_instruction(),
            ),
    {
        if input.len() == 0 {
            return Err(ProcessError::Fund(FundError::InvalidInstruction));
        }
        let tag = input[0];
        let rest = slice_subrange(input, 1, input.len());
        if tag == INVEST_TAG {
            match Self::unpack_amount(rest) {
                Ok(amount) => Ok(FundInstruction::Invest { amount }),
                Err(e) => Err(e),
            }
        } else {
            Err(ProcessError::Fund(FundError::InvalidInstruction))
        }
    }

    /// Reads the amount at the front of an instruction body.
    pub fn unpack_amount(input: &[u8]) -> (r: Result<u64, ProcessError>)
        ensures
            r == amount_of(input@),
    {
        if input.len() < 8 {
            return Err(ProcessError::Fund(FundError::InvalidInstruction));
        }
        let bytes = slice_subrange(input, 0, 8);
        Ok(u64_from_le_bytes(bytes))
    }
}

/// Encoding an amount and decoding the result gives the amount back, whatever
/// trailing bytes follow the encoding.
pub proof fn lemma_invest_round_trip(amount: u64, trailing: Seq<u8>)
    ensures
        instruction_of(invest_payload(amount).add(trailing)) == Ok::<
            FundInstruction,
            ProcessError,
        >(FundInstruction::Invest { amount }),
{
    vstd::bytes::lemma_auto_spec_u64_to_from_le_bytes();
    let input = invest_payload(amount).add(trailing);
    let body = input.subrange(1, input.len() as int);
    assert(body.subrange(0, 8) =~= spec_u64_to_le_bytes(amount));
}

} // verus!
