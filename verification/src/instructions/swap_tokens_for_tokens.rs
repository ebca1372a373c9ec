use vstd::prelude::*;
use crate::actions::{Action, AuxiliaryAccount};
use crate::address::Address;
use crate::delegate::{delegated_call, swap_on_jupiter};
use crate::errors::ErrorCode;
use crate::fees::{fee_plan, take_integrator_fee, AccountsForFee};
use crate::token::LoadedTokenAccount;
use crate::floor::{amount_out_verdict, assert_amount_out};
use crate::instructions::flow::{after, idle, rest, step_matches, FlowState, Step, StepView};

verus! {

/// Who takes part in a swap of one token for another.
#[derive(Clone, Debug, PartialEq, Eq)]
pub struct SwapTokensForTokens {
    pub user: Address,
    pub src_token: Address,
    pub user_src_ata: LoadedTokenAccount,
    pub receiver_dst_ata: LoadedTokenAccount,
    pub unizen_src_ata: LoadedTokenAccount,
    pub integrator_src_ata: LoadedTokenAccount,
    pub jupiter_program: Address,
    pub token_program: Address,
    pub system_program: Address,
    /// Bump of the program authority's derived address.
    pub authority_bump: u8,
    /// The accounts that the swap engine works on, as the caller lists them.
    pub remaining_accounts: Vec<AuxiliaryAccount>,
}

impl SwapTokensForTokens {
    /// Who takes part in the fee: the user pays out of the source account.
    pub open spec fn fee_accounts(&self) -> AccountsForFee {
        AccountsForFee {
            user: self.user,
            token_program: self.token_program,
            user_token_account: self.user_src_ata,
            unizen_token_account: self.unizen_src_ata,
            integrator_token_account: self.integrator_src_ata,
        }
    }
}

/// The part of a swap that ends in a token account, from the moment the fee is taken.
/// `destination_amount` is what the destination account holds now, read from the
/// ledger just before the step. The step that hands the swap to the engine remembers
/// it as the balance before; the step after the engine has run holds it against that
/// balance and the floor.
pub open spec fn token_out_step(
    remaining_accounts: Seq<AuxiliaryAccount>,
    jupiter_program: Address,
    authority_bump: Seq<u8>,
    state: FlowState,
    destination_amount: u64,
    amount_out_min: u64,
    data: Seq<u8>,
) -> Result<StepView, ErrorCode> {
    match state {
        FlowState::Start | FlowState::FeeTaken | FlowState::EscrowReady => Ok(
            StepView {
                next: FlowState::Delegated { balance_before: destination_amount },
                actions: seq![delegated_call(remaining_accounts, jupiter_program, authority_bump, data)],
            },
        ),
        FlowState::Delegated { balance_before } | FlowState::EscrowClosed { balance_before } => match amount_out_verdict(
            balance_before,
            destination_amount,
            amount_out_min,
        ) {
            Ok(()) => Ok(idle(FlowState::Verified)),
            Err(e) => Err(e),
        },
        FlowState::Verified | FlowState::Done => Ok(idle(FlowState::Done)),
    }
}

/// One move of a swap of tokens for tokens. From `Start` the fee is taken on the source
/// token; from there on the swap goes as `token_out_step` says. This swap has no escrow
/// of its own: `EscrowReady` counts as `FeeTaken`, `EscrowClosed` as `Delegated`.
pub open spec fn tokens_for_tokens_step(
    ctx: SwapTokensForTokens,
    state: FlowState,
    destination_amount: u64,
    amount_in: u64,
    amount_out_min: u64,
    fee_percent: u64,
    share_percent: u64,
    data: Seq<u8>,
) -> Result<StepView, ErrorCode> {
    match state {
        FlowState::Start => after(
            fee_plan(ctx.fee_accounts(), amount_in, fee_percent, share_percent),
            FlowState::FeeTaken,
        ),
        _ => token_out_step(
            ctx.remaining_accounts@,
            ctx.jupiter_program,
            seq![ctx.authority_bump],
            state,
            destination_amount,
            amount_out_min,
            data,
        ),
    }
}

/// Moves a swap that ends in a token account forward once the fee is taken.
pub(crate) fn finish_in_tokens(
    remaining_accounts: &[AuxiliaryAccount],
    jupiter_program: &Address,
    authority_bump: u8,
    state: FlowState,
    destination_amount: u64,
    amount_out_min: u64,
    data: &[u8],
) -> (res: Result<Step, ErrorCode>)
    ensures
        step_matches(
            res,
            token_out_step(
                remaining_accounts@,
                *jupiter_program,
                seq![authority_bump],
                state,
                destination_amount,
                amount_out_min,
                data@,
            ),
        ),
{
    match state {
        FlowState::Start | FlowState::FeeTaken | FlowState::EscrowReady => {
            let bump: [u8; 1] = [authority_bump];
            assert(bump@ =~= seq![authority_bump]);
            let mut actions: Vec<Action> = Vec::new();
            actions.push(
                swap_on_jupiter(remaining_accounts, jupiter_program, bump.as_slice(), vstd::slice::slice_to_vec(data)),
            );
            assert(actions.deep_view() =~= seq![
                delegated_call(remaining_accounts@, *jupiter_program, seq![authority_bump], data@),
            ]);
            Ok(Step { next: FlowState::Delegated { balance_before: destination_amount }, actions })
        },
        FlowState::Delegated { balance_before } | FlowState::EscrowClosed { balance_before } => {
            match assert_amount_out(balance_before, destination_amount, amount_out_min) {
                Ok(()) => Ok(rest(FlowState::Verified)),
                Err(e) => Err(e),
            }
        },
        FlowState::Verified | FlowState::Done => Ok(rest(FlowState::Done)),
    }
}

/// Moves a swap of tokens for tokens one step forward. `destination_amount` is what the
/// destination account holds now, read from the ledger just before this step.
pub fn swap_tokens_for_tokens(
    ctx: &SwapTokensForTokens,
    state: FlowState,
    destination_amount: u64,
    amount_in: u64,
    amount_out_min: u64,
    fee_percent: u64,
    share_percent: u64,
    data: &[u8],
) -> (res: Result<Step, ErrorCode>)
    ensures
        step_matches(
            res,
            tokens_for_tokens_step(
                *ctx,
                state,
                destination_amount,
                amount_in,
                amount_out_min,
                fee_percent,
                share_percent,
                data@,
            ),
        ),
{
    match state {
        FlowState::Start => {
            let accounts = AccountsForFee {
                user: ctx.user,
                token_program: ctx.token_program,
                user_token_account: ctx.user_src_ata,
                unizen_token_account: ctx.unizen_src_ata,
                integrator_token_account: ctx.integrator_src_ata,
            };
            match take_integrator_fee(&accounts, amount_in, fee_percent, share_percent) {
                Ok(actions) => Ok(Step { next: FlowState::FeeTaken, actions }),
                Err(e) => Err(e),
            }
        },
        _ => finish_in_tokens(
            ctx.remaining_accounts.as_slice(),
            &ctx.jupiter_program,
            ctx.authority_bump,
            state,
            destination_amount,
            amount_out_min,
            data,
        ),
    }
}

} // verus!
