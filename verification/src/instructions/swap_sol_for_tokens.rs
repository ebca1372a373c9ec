use vstd::prelude::*;
use crate::actions::{ActionView, AuxiliaryAccount};
use crate::address::Address;
use crate::errors::ErrorCode;
use crate::fees::{fee_plan, take_integrator_fee, AccountsForFee};
use crate::token::LoadedTokenAccount;
use crate::instructions::flow::{extend, step_matches, FlowState, Step, StepView};
use crate::instructions::swap_tokens_for_tokens::{finish_in_tokens, token_out_step};
use crate::wrap::{wrap_plan, wrap_user_sol};

verus! {

/// Who takes part in a swap of native balance for a token.
#[derive(Clone, Debug, PartialEq, Eq)]
pub struct SwapSolForTokens {
    pub user: Address,
    pub sol_mint: Address,
    pub user_wsol_ata: LoadedTokenAccount,
    pub receiver_dst_ata: LoadedTokenAccount,
    pub unizen_wsol_ata: LoadedTokenAccount,
    pub integrator_wsol_ata: LoadedTokenAccount,
    pub jupiter_program: Address,
    pub token_program: Address,
    pub system_program: Address,
    /// Bump of the program authority's derived address.
    pub authority_bump: u8,
    /// The accounts that the swap engine works on, as the caller lists them.
    pub remaining_accounts: Vec<AuxiliaryAccount>,
}

impl SwapSolForTokens {
    /// Who takes part in the fee: the user pays out of their wrapped account.
    pub open spec fn fee_accounts(&self) -> AccountsForFee {
        AccountsForFee {
            user: self.user,
            token_program: self.token_program,
            user_token_account: self.user_wsol_ata,
            unizen_token_account: self.unizen_wsol_ata,
            integrator_token_account: self.integrator_wsol_ata,
        }
    }
}

/// What the first step of a swap of native balance asks of the ledger: wrap the whole
/// amount, then take the fee on the wrapped asset.
pub open spec fn wrap_and_fee_plan(ctx: SwapSolForTokens, amount_in: u64, fee_percent: u64, share_percent: u64) -> Result<
    Seq<ActionView>,
    ErrorCode,
> {
    match fee_plan(ctx.fee_accounts(), amount_in, fee_percent, share_percent) {
        Ok(fee) => Ok(
            wrap_plan(ctx.system_program, ctx.token_program, ctx.user, ctx.user_wsol_ata.key, amount_in) + fee,
        ),
        Err(e) => Err(e),
    }
}

/// One move of a swap of native balance for tokens. From `Start` the amount is wrapped
/// and the fee taken; from there on the swap goes as `token_out_step` says. The escrow
/// here is the user's own wrapped account, which needs no opening: `EscrowReady` counts
/// as `FeeTaken`, `EscrowClosed` as `Delegated`.
pub open spec fn sol_for_tokens_step(
    ctx: SwapSolForTokens,
    state: FlowState,
    destination_amount: u64,
    amount_in: u64,
    amount_out_min: u64,
    fee_percent: u64,
    share_percent: u64,
    data: Seq<u8>,
) -> Result<StepView, ErrorCode> {
    match state {
        FlowState::Start => match wrap_and_fee_plan(ctx, amount_in, fee_percent, share_percent) {
            Ok(actions) => Ok(StepView { next: FlowState::FeeTaken, actions }),
            Err(e) => Err(e),
        },
        _ => token_out_step(
            ctx.remaining_accounts@,
            ctx.jupiter_program,
            seq![ctx.authority_bump],
            state,
            destination_amount,
            amount_out_min,
            data,
        ),
    }
}

/// Moves a swap of native balance for tokens one step forward. `destination_amount` is
/// what the destination account holds now, read from the ledger just before this step.
pub fn swap_sol_for_tokens(
    ctx: &SwapSolForTokens,
    state: FlowState,
    destination_amount: u64,
    amount_in: u64,
    amount_out_min: u64,
    fee_percent: u64,
    share_percent: u64,
    data: &[u8],
) -> (res: Result<Step, ErrorCode>)
    ensures
        step_matches(
            res,
            sol_for_tokens_step(
                *ctx,
                state,
                destination_amount,
                amount_in,
                amount_out_min,
                fee_percent,
                share_percent,
                data@,
            ),
        ),
{
    match state {
        FlowState::Start => {
            let mut actions = wrap_user_sol(
                &ctx.system_program,
                &ctx.token_program,
                &ctx.user,
                &ctx.user_wsol_ata,
                amount_in,
            );
            let accounts = AccountsForFee {
                user: ctx.user,
                token_program: ctx.token_program,
                user_token_account: ctx.user_wsol_ata,
                unizen_token_account: ctx.unizen_wsol_ata,
                integrator_token_account: ctx.integrator_wsol_ata,
            };
            match take_integrator_fee(&accounts, amount_in, fee_percent, share_percent) {
                Ok(fee) => {
                    extend(&mut actions, fee);
                    Ok(Step { next: FlowState::FeeTaken, actions })
                },
                Err(e) => Err(e),
            }
        },
        _ => finish_in_tokens(
            ctx.remaining_accounts.as_slice(),
            &ctx.jupiter_program,
            ctx.authority_bump,
            state,
            destination_amount,
            amount_out_min,
            data,
        ),
    }
}

} // verus!
