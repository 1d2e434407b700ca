use vstd::prelude::*;

verus! {

/// What the handler reads of an account that the host passes in.
#[derive(Debug, Clone, Copy)]
pub struct AccountRef {
    /// The account's address.
    pub key: [u8; 32],
    /// The address of the program that owns the account.
    pub owner: [u8; 32],
    /// Whether the transaction was signed with this account's key.
    pub is_signer: bool,
    /// Whether the account may be changed by this transaction.
    pub is_writable: bool,
}

/// The address of the token program, `TokenkegQfeZyiNwAJbNbGKPFXCWuBvf9Ss623VQ5DA`.
pub const TOKEN_PROGRAM_ID: [u8; 32] = [
    6, 221, 246, 225, 215, 101, 161, 147, 217, 203, 225, 70, 206, 235, 121, 172, 28, 180, 133,
    237, 95, 91, 55, 145, 58, 140, 245, 133, 126, 255, 0, 169,
];

/// The only USDC account accepted, `CpMah17kQEL2wqyMKt3mZBdTnZbkbfx4nqmQMFDP5vwp`
/// (the USDC testnet address).
pub const USDC_ACCOUNT_KEY: [u8; 32] = [
    175, 146, 32, 4, 71, 77, 15, 153, 195, 111, 253, 21, 4, 97, 246, 239, 249, 29, 126, 145,
    111, 187, 173, 43, 182, 9, 240, 33, 182, 249, 192, 223,
];

/// The only fund token account accepted. Until the fund's own token is
/// created it is the same address as the USDC account,
/// `CpMah17kQEL2wqyMKt3mZBdTnZbkbfx4nqmQMFDP5vwp`.
pub const FUND_TOKEN_ACCOUNT_KEY: [u8; 32] = [
    175, 146, 32, 4, 71, 77, 15, 153, 195, 111, 253, 21, 4, 97, 246, 239, 249, 29, 126, 145,
    111, 187, 173, 43, 182, 9, 240, 33, 182, 249, 192, 223,
];

/// Compares two addresses byte by byte.
pub fn keys_equal(a: &[u8; 32], b: &[u8; 32]) -> (r: bool)
    ensures
        r == (a@ == b@),
{
    let mut i: usize = 0;
    while i < 32
        invariant
            0 <= i <= 32,
            a@.len() == 32,
            b@.len() == 32,
            forall|j: int| 0 <= j < i ==> a@[j] == b@[j],
        decreases 32 - i,
    {
        if a[i] != b[i] {
            return false;
        }
        i = i + 1;
    }
    assert(a@ =~= b@);
    true
}

/// Relies on `spl_token::id`: the token program's address, declared there as
/// `TokenkegQfeZyiNwAJbNbGKPFXCWuBvf9Ss623VQ5DA`.
#[verifier::external_body]
pub(crate) fn token_program_id() -> (r: [u8; 32])
    ensures
        r == TOKEN_PROGRAM_ID,
{
    spl_token::id().to_bytes()
}

} // verus!
