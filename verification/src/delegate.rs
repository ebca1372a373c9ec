use vstd::prelude::*;
use crate::actions::{
    authority_seeds, authority_signer, signed, AccountMeta, Action, ActionView, AuxiliaryAccount, Instruction,
    InstructionView, Operation, OperationView,
};
use crate::address::Address;
use crate::constants::JUPITER;

verus! {

/// The swap engine.
#[derive(Clone, Copy, Debug, PartialEq, Eq)]
pub struct Jupiter;

impl Jupiter {
    /// The address at which the swap engine lives.
    pub fn id() -> (address: Address)
        ensures
            address.bytes == JUPITER,
    {
        Address { bytes: JUPITER }
    }
}

/// An auxiliary account as an instruction names it: same key, same permissions.
pub open spec fn forwarded_account(account: AuxiliaryAccount) -> AccountMeta {
    AccountMeta { pubkey: account.key, is_signer: account.is_signer, is_writable: account.is_writable }
}

/// The auxiliary accounts as an instruction names them, one for one and in order.
pub open spec fn forwarded_accounts(accounts: Seq<AuxiliaryAccount>) -> Seq<AccountMeta> {
    Seq::new(accounts.len(), |i: int| forwarded_account(accounts[i]))
}

/// The call handed to the swap engine: every auxiliary account as the caller gave it,
/// the payload untouched, and the program authority as the one derived signer, so that
/// the engine can act on what the program authority owns.
pub open spec fn delegated_call(
    remaining_accounts: Seq<AuxiliaryAccount>,
    jupiter_program: Address,
    authority_bump: Seq<u8>,
    data: Seq<u8>,
) -> ActionView {
    ActionView {
        operation: OperationView::Invoke {
            instruction: InstructionView {
                program_id: jupiter_program,
                accounts: forwarded_accounts(remaining_accounts),
                data,
            },
        },
        signer_seeds: seq![authority_signer(authority_bump)],
    }
}

/// Describes the call that hands the swap to the engine, signed by the program
/// authority under `authority_bump`. The payload is not looked at.
pub fn swap_on_jupiter(
    remaining_accounts: &[AuxiliaryAccount],
    jupiter_program: &Address,
    authority_bump: &[u8],
    data: Vec<u8>,
) -> (action: Action)
    ensures
        action.deep_view() == delegated_call(remaining_accounts@, *jupiter_program, authority_bump@, data@),
{
    let mut accounts: Vec<AccountMeta> = Vec::new();
    let mut i: usize = 0;
    while i < remaining_accounts.len()
        invariant
            i <= remaining_accounts.len(),
            accounts@ == forwarded_accounts(remaining_accounts@).take(i as int),
        decreases remaining_accounts.len() - i,
    {
        let account = &remaining_accounts[i];
        accounts.push(AccountMeta { pubkey: account.key, is_signer: account.is_signer, is_writable: account.is_writable });
        i += 1;
        assert(accounts@ =~= forwarded_accounts(remaining_accounts@).take(i as int));
    }
    assert(accounts@ =~= forwarded_accounts(remaining_accounts@));
    signed(
        Operation::Invoke { instruction: Instruction { program_id: *jupiter_program, accounts, data } },
        authority_seeds(authority_bump),
    )
}

} // verus!
