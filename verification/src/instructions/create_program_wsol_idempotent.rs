use vstd::prelude::*;
use crate::address::Address;
use crate::constants::TOKEN_ACCOUNT_LEN;
use crate::errors::ErrorCode;
use crate::escrow::{escrow_opening_from, opening_matches, EscrowOpening};
use crate::token::kept_in;

verus! {

/// Who takes part when the program's escrow is opened on its own.
#[derive(Clone, Copy, Debug, PartialEq, Eq)]
pub struct CreateWsolTokenIdempotent {
    pub program_authority: Address,
    pub program_wsol: Address,
    pub sol_mint: Address,
    pub token_program: Address,
    pub system_program: Address,
    /// Bump of the program authority's derived address.
    pub authority_bump: u8,
    /// Bump of the escrow's derived address.
    pub wsol_bump: u8,
}

/// Opens the program's escrow if it is not open yet. `wsol_data` is the escrow's
/// storage as it stands, `rent_exempt_minimum` the balance that keeps a token account
/// alive. Each bump signs as its one byte.
pub fn create_program_wsol_idempotent(ctx: &CreateWsolTokenIdempotent, wsol_data: &[u8], rent_exempt_minimum: u64) -> (res:
    Result<EscrowOpening, ErrorCode>)
    ensures
        opening_matches(
            res,
            escrow_opening_from(
                wsol_data@,
                ctx.program_authority,
                ctx.program_wsol,
                ctx.sol_mint,
                ctx.token_program,
                ctx.system_program,
                rent_exempt_minimum,
                seq![ctx.authority_bump],
                seq![ctx.wsol_bump],
            ),
        ),
        res matches Ok(EscrowOpening::Open { account }) ==> kept_in(account, wsol_data@),
        res matches Ok(EscrowOpening::Create { actions }) ==> wsol_data@.len() == 0,
        res == Err::<EscrowOpening, ErrorCode>(ErrorCode::IncorrectOwner) ==> wsol_data@.len() == TOKEN_ACCOUNT_LEN
            && wsol_data@.subrange(32, 64) != ctx.program_authority@,
{
    let authority_bump: [u8; 1] = [ctx.authority_bump];
    let wsol_bump: [u8; 1] = [ctx.wsol_bump];
    assert(authority_bump@ =~= seq![ctx.authority_bump]);
    assert(wsol_bump@ =~= seq![ctx.wsol_bump]);
    crate::escrow::create_program_wsol_idempotent(
        &ctx.program_authority,
        &ctx.program_wsol,
        wsol_data,
        &ctx.sol_mint,
        &ctx.token_program,
        &ctx.system_program,
        rent_exempt_minimum,
        authority_bump.as_slice(),
        wsol_bump.as_slice(),
    )
}

} // verus!
