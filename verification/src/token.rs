use vstd::prelude::*;
use vstd::bytes::spec_u64_from_le_bytes;
use anchor_lang::AccountDeserialize;
use crate::address::{lemma_same_bytes_same_address, Address};
use crate::constants::{INVALID_ACCOUNT_DATA, TOKEN_ACCOUNT_LEN, UNINITIALIZED_ACCOUNT};
use crate::errors::ErrorCode;

verus! {

/// What this library reads of a token account's state.
#[derive(Clone, Copy, Debug, PartialEq, Eq)]
pub struct TokenAccount {
    /// The asset that the account holds.
    pub mint: Address,
    /// Who may move the account's tokens.
    pub owner: Address,
    /// How many tokens it holds.
    pub amount: u64,
}

/// A token account that takes part in a request: where it lives, and its state as it
/// was loaded when the request came in. The library reads owner and mint from it. A
/// balance that a check rests on is never taken from here: it is read anew.
#[derive(Clone, Copy, Debug, PartialEq, Eq)]
pub struct LoadedTokenAccount {
    pub key: Address,
    pub state: TokenAccount,
}

/// Whether an account's fields are those that `data` keeps at the places where the
/// token program keeps them: the mint in bytes 0..32, the owner in bytes 32..64 and the
/// amount, least significant byte first, in bytes 64..72 of 165.
pub open spec fn kept_in(account: TokenAccount, data: Seq<u8>) -> bool {
    &&& data.len() == TOKEN_ACCOUNT_LEN
    &&& account.mint@ == data.subrange(0, 32)
    &&& account.owner@ == data.subrange(32, 64)
    &&& account.amount == spec_u64_from_le_bytes(data.subrange(64, 72))
}

/// Whether the four bytes from `at` on say "absent" or "present": 0 or 1 as a 32-bit
/// number, least significant byte first.
pub open spec fn option_tag(data: Seq<u8>, at: int) -> bool {
    &&& data[at] == 0 || data[at] == 1
    &&& data[at + 1] == 0
    &&& data[at + 2] == 0
    &&& data[at + 3] == 0
}

/// Whether storage has the shape of a token account: 165 bytes, a tag before each of
/// the delegate (at 72), the native reserve (at 109) and the close authority (at 129),
/// and at 108 a state that is blank (0), initialised (1) or frozen (2).
pub open spec fn token_account_shaped(data: Seq<u8>) -> bool {
    &&& data.len() == TOKEN_ACCOUNT_LEN
    &&& option_tag(data, 72)
    &&& data[108] <= 2
    &&& option_tag(data, 109)
    &&& option_tag(data, 129)
}

/// The account whose fields `data` keeps. There is at most one.
pub open spec fn token_account_in(data: Seq<u8>) -> TokenAccount {
    choose|account: TokenAccount| kept_in(account, data)
}

/// What the token program's decoder makes of an account's storage: storage of another
/// shape is not account data; storage of the right shape in the blank state is not
/// initialised; anything else is the account whose fields it keeps. A failure is the
/// ledger's number for it.
pub open spec fn unpacked_token_account(data: Seq<u8>) -> Result<TokenAccount, u64> {
    if !token_account_shaped(data) {
        Err(INVALID_ACCOUNT_DATA)
    } else if data[108] == 0 {
        Err(UNINITIALIZED_ACCOUNT)
    } else {
        Ok(token_account_in(data))
    }
}

/// Storage keeps the fields of one account at most.
pub proof fn lemma_storage_keeps_one_account(a: TokenAccount, b: TokenAccount, data: Seq<u8>)
    requires
        kept_in(a, data),
        kept_in(b, data),
    ensures
        a == b,
        a == token_account_in(data),
{
    lemma_same_bytes_same_address(a.mint, b.mint);
    lemma_same_bytes_same_address(a.owner, b.owner);
    let chosen = token_account_in(data);
    lemma_same_bytes_same_address(a.mint, chosen.mint);
    lemma_same_bytes_same_address(a.owner, chosen.owner);
}

/// Calls `TokenAccount::try_deserialize` of anchor_spl, which is `Account::unpack` of
/// spl_token, and turns an error into its number by `ProgramError::from` and
/// `u64::from`. The contract says all that the decoder does: it refuses storage that is
/// not 165 bytes long, then storage with an option tag other than 0 or 1 or a state
/// above 2, both as invalid account data; then storage in state 0 as uninitialised; and
/// from all other storage it reads the mint from bytes 0..32, the owner from bytes
/// 32..64 and the amount, least significant byte first, from bytes 64..72.
#[verifier::external_body]
fn unpack_token_account(data: &[u8]) -> (res: Result<TokenAccount, u64>)
    ensures
        match unpacked_token_account(data@) {
            Ok(_) => res matches Ok(account) && kept_in(account, data@),
            Err(code) => res == Err::<TokenAccount, u64>(code),
        },
{
    let mut buf: &[u8] = data;
    match anchor_spl::token::TokenAccount::try_deserialize(&mut buf) {
        Ok(account) => Ok(TokenAccount {
            mint: Address { bytes: account.mint.to_bytes() },
            owner: Address { bytes: account.owner.to_bytes() },
            amount: account.amount,
        }),
        Err(e) => Err(u64::from(anchor_lang::prelude::ProgramError::from(e))),
    }
}

/// What loading a token account from storage gives: the account, or the ledger's failure.
pub open spec fn loaded_token_account(data: Seq<u8>) -> Result<TokenAccount, ErrorCode> {
    match unpacked_token_account(data) {
        Ok(account) => Ok(account),
        Err(code) => Err(ErrorCode::Ledger(code)),
    }
}

/// Loads a token account from an account's storage.
pub fn load_token_account(data: &[u8]) -> (res: Result<TokenAccount, ErrorCode>)
    ensures
        res == loaded_token_account(data@),
        res matches Ok(account) ==> kept_in(account, data@),
{
    match unpack_token_account(data) {
        Ok(account) => {
            proof {
                lemma_storage_keeps_one_account(account, account, data@);
            }
            Ok(account)
        },
        Err(code) => Err(ErrorCode::Ledger(code)),
    }
}

/// What storage holds: nothing where it is empty, else what loading it gives.
pub open spec fn storage_reading(data: Seq<u8>) -> Result<Option<TokenAccount>, ErrorCode> {
    if data.len() == 0 {
        Ok(None)
    } else {
        match loaded_token_account(data) {
            Ok(account) => Ok(Some(account)),
            Err(e) => Err(e),
        }
    }
}

/// Reads an account's storage: `None` where nothing is allocated, the token account
/// where the storage decodes, and the ledger's failure otherwise.
pub fn read_token_account(data: &[u8]) -> (res: Result<Option<TokenAccount>, ErrorCode>)
    ensures
        res == storage_reading(data@),
        res matches Ok(Some(account)) ==> kept_in(account, data@),
{
    if data.len() == 0 {
        return Ok(None);
    }
    match load_token_account(data) {
        Ok(account) => Ok(Some(account)),
        Err(e) => Err(e),
    }
}

} // verus!
