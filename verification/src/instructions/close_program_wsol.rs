use vstd::prelude::*;
use crate::actions::Action;
use crate::address::Address;
use crate::errors::ErrorCode;
use crate::escrow::escrow_closing;
use crate::actions::plan_matches;

verus! {

/// Who takes part when the program's escrow is closed on its own.
#[derive(Clone, Copy, Debug, PartialEq, Eq)]
pub struct CloseProgramWsol {
    pub program_authority: Address,
    pub program_wsol: Address,
    pub receiver: Address,
    pub token_program: Address,
    pub system_program: Address,
    /// Bump of the program authority's derived address.
    pub authority_bump: u8,
}

/// Plans the closing of the program's escrow. `wsol_balance` is the escrow's native
/// balance as it stands, `rent_exempt_minimum` the balance that keeps a token account
/// alive. The bump signs as its one byte.
pub fn close_program_wsol(ctx: &CloseProgramWsol, wsol_balance: u64, rent_exempt_minimum: u64) -> (res: Result<
    Vec<Action>,
    ErrorCode,
>)
    ensures
        plan_matches(
            res,
            escrow_closing(
                ctx.program_authority,
                ctx.program_wsol,
                wsol_balance,
                ctx.receiver,
                ctx.token_program,
                ctx.system_program,
                rent_exempt_minimum,
                seq![ctx.authority_bump],
            ),
        ),
{
    let authority_bump: [u8; 1] = [ctx.authority_bump];
    assert(authority_bump@ =~= seq![ctx.authority_bump]);
    crate::escrow::close_program_wsol(
        &ctx.program_authority,
        &ctx.program_wsol,
        wsol_balance,
        &ctx.receiver,
        &ctx.token_program,
        &ctx.system_program,
        rent_exempt_minimum,
        authority_bump.as_slice(),
    )
}

} // verus!
