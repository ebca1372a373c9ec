use vstd::prelude::*;
use crate::actions::{Action, ActionView, Operation, OperationView, plain, plain_action};
use crate::address::Address;
use crate::token::LoadedTokenAccount;

verus! {

/// What wrapping asks of the ledger: move the native amount into the wrapped account,
/// then have the token program count it.
pub open spec fn wrap_plan(system_program: Address, token_program: Address, user: Address, wsol_receive_account: Address, amount: u64) -> Seq<ActionView> {
    seq![
        plain_action(OperationView::SystemTransfer { program: system_program, from: user, to: wsol_receive_account, lamports: amount }),
        plain_action(OperationView::SyncNative { program: token_program, account: wsol_receive_account }),
    ]
}

/// Plans the wrapping of `amount` of the user's native balance into their wrapped account.
pub fn wrap_user_sol(
    system_program: &Address,
    token_program: &Address,
    user: &Address,
    wsol_receive_account: &LoadedTokenAccount,
    amount: u64,
) -> (plan: Vec<Action>)
    ensures
        plan.deep_view() == wrap_plan(*system_program, *token_program, *user, wsol_receive_account.key, amount),
{
    let mut plan: Vec<Action> = Vec::new();
    plan.push(
        plain(
            Operation::SystemTransfer {
                program: *system_program,
                from: *user,
                to: wsol_receive_account.key,
                lamports: amount,
            },
        ),
    );
    plan.push(plain(Operation::SyncNative { program: *token_program, account: wsol_receive_account.key }));
    assert(plan.deep_view() =~= wrap_plan(*system_program, *token_program, *user, wsol_receive_account.key, amount));
    plan
}

} // verus!
