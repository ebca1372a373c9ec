use vstd::prelude::*;
use crate::actions::{Action, AuxiliaryAccount};
use crate::address::Address;
use crate::delegate::{delegated_call, swap_on_jupiter};
use crate::errors::ErrorCode;
use crate::escrow::{close_program_wsol, create_program_wsol_idempotent, escrow_closing, escrow_opening_from, EscrowOpening, EscrowOpeningView};
use crate::fees::{fee_plan, take_integrator_fee, AccountsForFee};
use crate::token::LoadedTokenAccount;
use crate::floor::{amount_out_verdict, assert_amount_out};
use crate::instructions::flow::{after, idle, rest, step_matches, FlowState, Step, StepView};
use crate::token::{load_token_account, loaded_token_account};

verus! {

/// Who takes part in a swap of a token for native balance.
#[derive(Clone, Debug, PartialEq, Eq)]
pub struct SwapTokensForSol {
    pub program_authority: Address,
    pub program_wsol: Address,
    pub user: Address,
    pub receiver: Address,
    pub src_token: Address,
    pub sol_mint: Address,
    pub user_src_ata: LoadedTokenAccount,
    pub unizen_src_ata: LoadedTokenAccount,
    pub integrator_src_ata: LoadedTokenAccount,
    pub jupiter_program: Address,
    pub token_program: Address,
    pub system_program: Address,
    /// Bump of the program authority's derived address.
    pub authority_bump: u8,
    /// Bump of the escrow's derived address.
    pub wsol_bump: u8,
    /// The accounts that the swap engine works on, as the caller lists them.
    pub remaining_accounts: Vec<AuxiliaryAccount>,
}

impl SwapTokensForSol {
    /// Who takes part in the fee: the user pays out of the source account.
    pub open spec fn fee_accounts(&self) -> AccountsForFee {
        AccountsForFee {
            user: self.user,
            token_program: self.token_program,
            user_token_account: self.user_src_ata,
            unizen_token_account: self.unizen_src_ata,
            integrator_token_account: self.integrator_src_ata,
        }
    }
}

/// What the host reads from the ledger just before each step of a swap that ends in
/// native balance.
#[derive(Clone, Debug, PartialEq, Eq)]
pub struct LedgerReading {
    /// The escrow's storage; empty where none is allocated.
    pub wsol_data: Vec<u8>,
    /// The escrow's native balance.
    pub wsol_lamports: u64,
    /// The balance that keeps a token account alive.
    pub rent_exempt_minimum: u64,
    /// The receiver's native balance.
    pub receiver_lamports: u64,
}

/// The step that opens the escrow: whatever opening asks for, and nothing where the
/// escrow is open already.
pub open spec fn opening_step(opening: Result<EscrowOpeningView, ErrorCode>) -> Result<StepView, ErrorCode> {
    match opening {
        Ok(EscrowOpeningView::Open { account }) => Ok(idle(FlowState::EscrowReady)),
        Ok(EscrowOpeningView::Create { actions }) => Ok(StepView { next: FlowState::EscrowReady, actions }),
        Err(e) => Err(e),
    }
}

/// One move of a swap of tokens for native balance:
/// from `Start`, take the fee on the source token;
/// from `FeeTaken`, open the program's escrow unless it is open;
/// from `EscrowReady`, load the escrow, note the receiver's balance and hand the swap
/// to the engine;
/// from `Delegated`, close the escrow, which sweeps what the engine left in it to the
/// receiver;
/// from `EscrowClosed`, hold the receiver's balance against the floor;
/// from `Verified`, finish.
pub open spec fn tokens_for_sol_step(
    ctx: SwapTokensForSol,
    state: FlowState,
    reading: LedgerReading,
    amount_in: u64,
    amount_out_min: u64,
    fee_percent: u64,
    share_percent: u64,
    data: Seq<u8>,
) -> Result<StepView, ErrorCode> {
    match state {
        FlowState::Start => after(
            fee_plan(ctx.fee_accounts(), amount_in, fee_percent, share_percent),
            FlowState::FeeTaken,
        ),
        FlowState::FeeTaken => opening_step(
            escrow_opening_from(
                reading.wsol_data@,
                ctx.program_authority,
                ctx.program_wsol,
                ctx.sol_mint,
                ctx.token_program,
                ctx.system_program,
                reading.rent_exempt_minimum,
                seq![ctx.authority_bump],
                seq![ctx.wsol_bump],
            ),
        ),
        FlowState::EscrowReady => match loaded_token_account(reading.wsol_data@) {
            Ok(_) => Ok(
                StepView {
                    next: FlowState::Delegated { balance_before: reading.receiver_lamports },
                    actions: seq![
                        delegated_call(ctx.remaining_accounts@, ctx.jupiter_program, seq![ctx.authority_bump], data),
                    ],
                },
            ),
            Err(e) => Err(e),
        },
        FlowState::Delegated { balance_before } => after(
            escrow_closing(
                ctx.program_authority,
                ctx.program_wsol,
                reading.wsol_lamports,
                ctx.receiver,
                ctx.token_program,
                ctx.system_program,
                reading.rent_exempt_minimum,
                seq![ctx.authority_bump],
            ),
            FlowState::EscrowClosed { balance_before },
        ),
        FlowState::EscrowClosed { balance_before } => match amount_out_verdict(
            balance_before,
            reading.receiver_lamports,
            amount_out_min,
        ) {
            Ok(()) => Ok(idle(FlowState::Verified)),
            Err(e) => Err(e),
        },
        FlowState::Verified | FlowState::Done => Ok(idle(FlowState::Done)),
    }
}

/// Moves a swap of tokens for native balance one step forward. `reading` is what the
/// ledger shows now.
pub fn swap_tokens_for_sol(
    ctx: &SwapTokensForSol,
    state: FlowState,
    reading: &LedgerReading,
    amount_in: u64,
    amount_out_min: u64,
    fee_percent: u64,
    share_percent: u64,
    data: &[u8],
) -> (res: Result<Step, ErrorCode>)
    ensures
        step_matches(
            res,
            tokens_for_sol_step(
                *ctx,
                state,
                *reading,
                amount_in,
                amount_out_min,
                fee_percent,
                share_percent,
                data@,
            ),
        ),
{
    let authority_bump: [u8; 1] = [ctx.authority_bump];
    let wsol_bump: [u8; 1] = [ctx.wsol_bump];
    assert(authority_bump@ =~= seq![ctx.authority_bump]);
    assert(wsol_bump@ =~= seq![ctx.wsol_bump]);
    match state {
        FlowState::Start => {
            let accounts = AccountsForFee {
                user: ctx.user,
                token_program: ctx.token_program,
                user_token_account: ctx.user_src_ata,
                unizen_token_account: ctx.unizen_src_ata,
                integrator_token_account: ctx.integrator_src_ata,
            };
            match take_integrator_fee(&accounts, amount_in, fee_percent, share_percent) {
                Ok(actions) => Ok(Step { next: FlowState::FeeTaken, actions }),
                Err(e) => Err(e),
            }
        },
        FlowState::FeeTaken => {
            match create_program_wsol_idempotent(
                &ctx.program_authority,
                &ctx.program_wsol,
                reading.wsol_data.as_slice(),
                &ctx.sol_mint,
                &ctx.token_program,
                &ctx.system_program,
                reading.rent_exempt_minimum,
                authority_bump.as_slice(),
                wsol_bump.as_slice(),
            ) {
                Ok(EscrowOpening::Open { account }) => Ok(rest(FlowState::EscrowReady)),
                Ok(EscrowOpening::Create { actions }) => Ok(Step { next: FlowState::EscrowReady, actions }),
                Err(e) => Err(e),
            }
        },
        FlowState::EscrowReady => {
            match load_token_account(reading.wsol_data.as_slice()) {
                Ok(_) => {
                    let mut actions: Vec<Action> = Vec::new();
                    actions.push(
                        swap_on_jupiter(
                            ctx.remaining_accounts.as_slice(),
                            &ctx.jupiter_program,
                            authority_bump.as_slice(),
                            vstd::slice::slice_to_vec(data),
                        ),
                    );
                    assert(actions.deep_view() =~= seq![
                        delegated_call(ctx.remaining_accounts@, ctx.jupiter_program, seq![ctx.authority_bump], data@),
                    ]);
                    Ok(Step { next: FlowState::Delegated { balance_before: reading.receiver_lamports }, actions })
                },
                Err(e) => Err(e),
            }
        },
        FlowState::Delegated { balance_before } => {
            match close_program_wsol(
                &ctx.program_authority,
                &ctx.program_wsol,
                reading.wsol_lamports,
                &ctx.receiver,
                &ctx.token_program,
                &ctx.system_program,
                reading.rent_exempt_minimum,
                authority_bump.as_slice(),
            ) {
                Ok(actions) => Ok(Step { next: FlowState::EscrowClosed { balance_before }, actions }),
                Err(e) => Err(e),
            }
        },
        FlowState::EscrowClosed { balance_before } => {
            match assert_amount_out(balance_before, reading.receiver_lamports, amount_out_min) {
                Ok(()) => Ok(rest(FlowState::Verified)),
                Err(e) => Err(e),
            }
        },
        FlowState::Verified | FlowState::Done => Ok(rest(FlowState::Done)),
    }
}

} // verus!
