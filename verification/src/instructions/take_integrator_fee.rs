use vstd::prelude::*;
use crate::actions::Action;
use crate::address::Address;
use crate::errors::ErrorCode;
use crate::fees::{fee_plan, AccountsForFee};
use crate::token::LoadedTokenAccount;
use crate::actions::plan_matches;

verus! {

/// Who takes part when a fee is taken on its own.
#[derive(Clone, Copy, Debug, PartialEq, Eq)]
pub struct TakeIntegratorFee {
    pub user: Address,
    pub token: Address,
    pub user_ata: LoadedTokenAccount,
    pub unizen_ata: LoadedTokenAccount,
    pub integrator_ata: LoadedTokenAccount,
    pub token_program: Address,
    pub system_program: Address,
}

impl TakeIntegratorFee {
    /// Who takes part in the fee: the user pays out of their account.
    pub open spec fn fee_accounts(&self) -> AccountsForFee {
        AccountsForFee {
            user: self.user,
            token_program: self.token_program,
            user_token_account: self.user_ata,
            unizen_token_account: self.unizen_ata,
            integrator_token_account: self.integrator_ata,
        }
    }
}

/// Plans a fee on its own: no swap follows and nothing is checked afterwards.
pub fn take_integrator_fee(ctx: &TakeIntegratorFee, amount_in: u64, fee_percent: u64, share_percent: u64) -> (res: Result<
    Vec<Action>,
    ErrorCode,
>)
    ensures
        plan_matches(res, fee_plan(ctx.fee_accounts(), amount_in, fee_percent, share_percent)),
{
    crate::fees::take_integrator_fee(
        &AccountsForFee {
            user: ctx.user,
            token_program: ctx.token_program,
            user_token_account: ctx.user_ata,
            unizen_token_account: ctx.unizen_ata,
            integrator_token_account: ctx.integrator_ata,
        },
        amount_in,
        fee_percent,
        share_percent,
    )
}

} // verus!
