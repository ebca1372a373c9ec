use vstd::prelude::*;
use crate::actions::{plain, plan_matches, plain_action, Action, ActionView, Operation, OperationView, TakeFee, TakeFeeView};
use crate::address::{base58, Address};
use crate::constants::FEE_DENOM;
use crate::errors::ErrorCode;
use crate::token::LoadedTokenAccount;

verus! {

/// Who takes part when a fee is moved.
#[derive(Clone, Copy, Debug, PartialEq, Eq)]
pub struct AccountsForFee {
    /// Owner of the paying account; signs the transfers.
    pub user: Address,
    pub token_program: Address,
    /// The account that pays.
    pub user_token_account: LoadedTokenAccount,
    /// The protocol's account.
    pub unizen_token_account: LoadedTokenAccount,
    /// The integrator's account.
    pub integrator_token_account: LoadedTokenAccount,
}

/// How a fee is divided between the protocol and the integrator.
#[derive(Clone, Copy, Debug, PartialEq, Eq, Structural)]
pub struct FeeSplit {
    pub total_fee: u64,
    pub protocol_fee: u64,
    pub integrator_fee: u64,
}

impl FeeSplit {
    /// Whether the two parts make up the whole.
    pub open spec fn balanced(&self) -> bool {
        self.protocol_fee + self.integrator_fee == self.total_fee
    }
}

/// The whole fee: `fee_percent` ten-thousandths of the amount, rounded down.
pub open spec fn total_fee(amount_in: int, fee_percent: int) -> int {
    amount_in * fee_percent / (FEE_DENOM as int)
}

/// The protocol's part: `share_percent` ten-thousandths of the whole fee, rounded down.
pub open spec fn protocol_fee(total: int, share_percent: int) -> int {
    if share_percent > 0 {
        total * share_percent / (FEE_DENOM as int)
    } else {
        0
    }
}

/// The split of a fee, or why there is none: the whole fee does not fit in 64 bits, or
/// the protocol's part is more than the whole.
pub open spec fn fee_split_of(amount_in: u64, fee_percent: u64, share_percent: u64) -> Result<FeeSplit, ErrorCode> {
    let total = total_fee(amount_in as int, fee_percent as int);
    let protocol = protocol_fee(total, share_percent as int);
    if total > u64::MAX {
        Err(ErrorCode::Overflow)
    } else if protocol > total {
        Err(ErrorCode::Underflow)
    } else {
        Ok(FeeSplit {
            total_fee: total as u64,
            protocol_fee: protocol as u64,
            integrator_fee: (total - protocol) as u64,
        })
    }
}

/// Computes the split of a fee. The products are formed in 128 bits, so no input
/// makes them wrap.
pub fn fee_split(amount_in: u64, fee_percent: u64, share_percent: u64) -> (res: Result<FeeSplit, ErrorCode>)
    ensures
        res == fee_split_of(amount_in, fee_percent, share_percent),
        res matches Ok(split) ==> split.balanced(),
{
    assert(amount_in * fee_percent <= 0xffff_ffff_ffff_ffff * 0xffff_ffff_ffff_ffff) by (nonlinear_arith)
        requires
            amount_in <= 0xffff_ffff_ffff_ffff,
            fee_percent <= 0xffff_ffff_ffff_ffff,
    ;
    let total: u128 = (amount_in as u128) * (fee_percent as u128) / (FEE_DENOM as u128);
    if total > u64::MAX as u128 {
        return Err(ErrorCode::Overflow);
    }
    let mut protocol: u128 = 0;
    if share_percent > 0 {
        assert(total * share_percent <= 0xffff_ffff_ffff_ffff * 0xffff_ffff_ffff_ffff) by (nonlinear_arith)
            requires
                total <= 0xffff_ffff_ffff_ffff,
                share_percent <= 0xffff_ffff_ffff_ffff,
        ;
        protocol = total * (share_percent as u128) / (FEE_DENOM as u128);
    }
    if protocol > total {
        return Err(ErrorCode::Underflow);
    }
    Ok(FeeSplit {
        total_fee: total as u64,
        protocol_fee: protocol as u64,
        integrator_fee: (total - protocol) as u64,
    })
}

/// The record that a fee computation publishes.
pub open spec fn fee_record(accounts: AccountsForFee, in_amount: u64, fee_percent: u64, share_percent: u64) -> TakeFeeView {
    TakeFeeView {
        user: base58(accounts.user_token_account.state.owner@),
        token: base58(accounts.user_token_account.state.mint@),
        amount: in_amount,
        fee_percent,
        share_percent,
    }
}

/// A transfer out of the paying account, signed by its owner.
pub open spec fn fee_transfer(accounts: AccountsForFee, to: Address, amount: u64) -> ActionView {
    plain_action(
        OperationView::TokenTransfer {
            program: accounts.token_program,
            from: accounts.user_token_account.key,
            to,
            authority: accounts.user,
            amount,
        },
    )
}

/// What taking a fee asks of the ledger, in order: the record always; nothing more
/// where the fee is zero percent; else the protocol's part, where it has a share, and
/// then the integrator's part.
pub open spec fn fee_plan(accounts: AccountsForFee, in_amount: u64, fee_percent: u64, share_percent: u64) -> Result<
    Seq<ActionView>,
    ErrorCode,
> {
    let emit = plain_action(OperationView::Emit { record: fee_record(accounts, in_amount, fee_percent, share_percent) });
    if fee_percent == 0 {
        Ok(seq![emit])
    } else {
        match fee_split_of(in_amount, fee_percent, share_percent) {
            Err(e) => Err(e),
            Ok(split) => {
                let integrator = fee_transfer(accounts, accounts.integrator_token_account.key, split.integrator_fee);
                if share_percent > 0 {
                    Ok(
                        seq![
                            emit,
                            fee_transfer(accounts, accounts.unizen_token_account.key, split.protocol_fee),
                            integrator,
                        ],
                    )
                } else {
                    Ok(seq![emit, integrator])
                }
            },
        }
    }
}

fn token_transfer(accounts: &AccountsForFee, to: Address, amount: u64) -> (action: Action)
    ensures
        action.deep_view() == fee_transfer(*accounts, to, amount),
{
    plain(
        Operation::TokenTransfer {
            program: accounts.token_program,
            from: accounts.user_token_account.key,
            to,
            authority: accounts.user,
            amount,
        },
    )
}

/// Plans the fee on `in_amount`: the record to publish and the transfers to make.
pub fn take_integrator_fee(accounts: &AccountsForFee, in_amount: u64, fee_percent: u64, share_percent: u64) -> (res:
    Result<Vec<Action>, ErrorCode>)
    ensures
        plan_matches(res, fee_plan(*accounts, in_amount, fee_percent, share_percent)),
{
    let record = TakeFee {
        user: accounts.user_token_account.state.owner.to_string(),
        token: accounts.user_token_account.state.mint.to_string(),
        amount: in_amount,
        fee_percent,
        share_percent,
    };
    let mut plan: Vec<Action> = Vec::new();
    plan.push(plain(Operation::Emit { record }));
    if fee_percent == 0 {
        assert(plan.deep_view() =~= fee_plan(*accounts, in_amount, fee_percent, share_percent)->Ok_0);
        return Ok(plan);
    }
    let split = match fee_split(in_amount, fee_percent, share_percent) {
        Ok(split) => split,
        Err(e) => {
            return Err(e);
        },
    };
    if share_percent > 0 {
        plan.push(token_transfer(accounts, accounts.unizen_token_account.key, split.protocol_fee));
    }
    plan.push(token_transfer(accounts, accounts.integrator_token_account.key, split.integrator_fee));
    assert(plan.deep_view() =~= fee_plan(*accounts, in_amount, fee_percent, share_percent)->Ok_0);
    Ok(plan)
}

} // verus!
