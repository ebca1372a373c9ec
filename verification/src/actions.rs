use vstd::prelude::*;
use crate::address::Address;
use crate::constants::{AUTHORITY_SEED, WSOL_SEED};
use crate::errors::ErrorCode;

verus! {

/// One account handed to the swap engine, with the permissions it carries.
#[derive(Clone, Copy, Debug, PartialEq, Eq)]
pub struct AuxiliaryAccount {
    pub key: Address,
    pub is_signer: bool,
    pub is_writable: bool,
}

/// One account named in an instruction, with the permissions the instruction asks for.
#[derive(Clone, Copy, Debug, PartialEq, Eq)]
pub struct AccountMeta {
    pub pubkey: Address,
    pub is_signer: bool,
    pub is_writable: bool,
}

/// A call to another program: its address, the accounts it may touch and its payload.
#[derive(Clone, Debug, PartialEq, Eq)]
pub struct Instruction {
    pub program_id: Address,
    pub accounts: Vec<AccountMeta>,
    pub data: Vec<u8>,
}

/// An instruction as contracts speak of it: its byte and account lists as sequences.
pub struct InstructionView {
    pub program_id: Address,
    pub accounts: Seq<AccountMeta>,
    pub data: Seq<u8>,
}

impl DeepView for Instruction {
    type V = InstructionView;

    open spec fn deep_view(&self) -> InstructionView {
        InstructionView {
            program_id: self.program_id,
            accounts: self.accounts@,
            data: self.data@,
        }
    }
}

/// The record published each time a fee is computed.
#[derive(Clone, Debug, PartialEq, Eq)]
pub struct TakeFee {
    /// Owner of the account that pays, in base-58.
    pub user: String,
    /// Mint of the asset that is charged, in base-58.
    pub token: String,
    pub amount: u64,
    pub fee_percent: u64,
    pub share_percent: u64,
}

/// A fee record as contracts speak of it: its texts as sequences of characters.
pub struct TakeFeeView {
    pub user: Seq<char>,
    pub token: Seq<char>,
    pub amount: u64,
    pub fee_percent: u64,
    pub share_percent: u64,
}

impl DeepView for TakeFee {
    type V = TakeFeeView;

    open spec fn deep_view(&self) -> TakeFeeView {
        TakeFeeView {
            user: self.user@,
            token: self.token@,
            amount: self.amount,
            fee_percent: self.fee_percent,
            share_percent: self.share_percent,
        }
    }
}

/// What the host is asked to do on the ledger. `program` is the program that carries
/// the operation out.
#[derive(Clone, Debug, PartialEq, Eq)]
pub enum Operation {
    /// Publish a fee record.
    Emit { record: TakeFee },
    /// Move native balance.
    SystemTransfer { program: Address, from: Address, to: Address, lamports: u64 },
    /// Set a wrapped account's token amount to the native balance it holds above its reserve.
    SyncNative { program: Address, account: Address },
    /// Move tokens between two accounts of one mint.
    TokenTransfer { program: Address, from: Address, to: Address, authority: Address, amount: u64 },
    /// Allocate storage at `to`, funded by `from` and handed to the program `owner`.
    CreateAccount { program: Address, from: Address, to: Address, lamports: u64, space: u64, owner: Address },
    /// Make allocated storage a token account of `mint`, owned by `authority`.
    InitializeAccount3 { program: Address, account: Address, mint: Address, authority: Address },
    /// Release a token account and hand its whole native balance to `destination`.
    CloseAccount { program: Address, account: Address, destination: Address, authority: Address },
    /// Run an instruction of another program.
    Invoke { instruction: Instruction },
}

/// An operation as contracts speak of it.
pub enum OperationView {
    Emit { record: TakeFeeView },
    SystemTransfer { program: Address, from: Address, to: Address, lamports: u64 },
    SyncNative { program: Address, account: Address },
    TokenTransfer { program: Address, from: Address, to: Address, authority: Address, amount: u64 },
    CreateAccount { program: Address, from: Address, to: Address, lamports: u64, space: u64, owner: Address },
    InitializeAccount3 { program: Address, account: Address, mint: Address, authority: Address },
    CloseAccount { program: Address, account: Address, destination: Address, authority: Address },
    Invoke { instruction: InstructionView },
}

impl DeepView for Operation {
    type V = OperationView;

    open spec fn deep_view(&self) -> OperationView {
        match *self {
            Operation::Emit { record } => OperationView::Emit { record: record.deep_view() },
            Operation::SystemTransfer { program, from, to, lamports } => OperationView::SystemTransfer {
                program,
                from,
                to,
                lamports,
            },
            Operation::SyncNative { program, account } => OperationView::SyncNative { program, account },
            Operation::TokenTransfer { program, from, to, authority, amount } => OperationView::TokenTransfer {
                program,
                from,
                to,
                authority,
                amount,
            },
            Operation::CreateAccount { program, from, to, lamports, space, owner } => OperationView::CreateAccount {
                program,
                from,
                to,
                lamports,
                space,
                owner,
            },
            Operation::InitializeAccount3 { program, account, mint, authority } => OperationView::InitializeAccount3 {
                program,
                account,
                mint,
                authority,
            },
            Operation::CloseAccount { program, account, destination, authority } => OperationView::CloseAccount {
                program,
                account,
                destination,
                authority,
            },
            Operation::Invoke { instruction } => OperationView::Invoke { instruction: instruction.deep_view() },
        }
    }
}

/// One step of a plan: an operation, and the seeds of the derived addresses that sign
/// it. Each signer is a list of seeds; an empty list of signers means that only the
/// transaction's own signers stand behind the operation.
#[derive(Clone, Debug, PartialEq, Eq)]
pub struct Action {
    pub operation: Operation,
    pub signer_seeds: Vec<Vec<Vec<u8>>>,
}

/// An action as contracts speak of it: the seeds as sequences of bytes.
pub struct ActionView {
    pub operation: OperationView,
    pub signer_seeds: Seq<Seq<Seq<u8>>>,
}

impl DeepView for Action {
    type V = ActionView;

    open spec fn deep_view(&self) -> ActionView {
        ActionView {
            operation: self.operation.deep_view(),
            signer_seeds: self.signer_seeds.deep_view(),
        }
    }
}

/// An action that no derived address signs: the signers of the transaction stand behind it.
pub open spec fn plain_action(operation: OperationView) -> ActionView {
    ActionView { operation, signer_seeds: Seq::empty() }
}

/// Makes an operation an action that no derived address signs.
pub fn plain(operation: Operation) -> (action: Action)
    ensures
        action.deep_view() == plain_action(operation.deep_view()),
{
    let action = Action { operation, signer_seeds: Vec::new() };
    assert(action.signer_seeds.deep_view() =~= Seq::<Seq<Seq<u8>>>::empty());
    action
}

/// The seeds of one derived signer: a fixed tag followed by its bump.
pub fn signer(tag: &[u8], bump: &[u8]) -> (seeds: Vec<Vec<u8>>)
    ensures
        seeds.deep_view() == seq![tag@, bump@],
{
    let mut seeds: Vec<Vec<u8>> = Vec::new();
    let t = vstd::slice::slice_to_vec(tag);
    let b = vstd::slice::slice_to_vec(bump);
    assert(t.deep_view() =~= tag@);
    assert(b.deep_view() =~= bump@);
    seeds.push(t);
    seeds.push(b);
    assert(seeds.deep_view() =~= seq![tag@, bump@]);
    seeds
}

/// The seeds with which the program authority signs.
pub open spec fn authority_signer(authority_bump: Seq<u8>) -> Seq<Seq<u8>> {
    seq![AUTHORITY_SEED@, authority_bump]
}

/// The seeds with which the escrow address signs.
pub open spec fn wsol_signer(wsol_bump: Seq<u8>) -> Seq<Seq<u8>> {
    seq![WSOL_SEED@, wsol_bump]
}

/// Makes an operation an action that the given derived addresses sign.
pub fn signed(operation: Operation, signer_seeds: Vec<Vec<Vec<u8>>>) -> (action: Action)
    ensures
        action.deep_view() == (ActionView {
            operation: operation.deep_view(),
            signer_seeds: signer_seeds.deep_view(),
        }),
{
    Action { operation, signer_seeds }
}

/// The signer list that holds the program authority alone.
pub fn authority_seeds(authority_bump: &[u8]) -> (signer_seeds: Vec<Vec<Vec<u8>>>)
    ensures
        signer_seeds.deep_view() == seq![authority_signer(authority_bump@)],
{
    let mut signer_seeds: Vec<Vec<Vec<u8>>> = Vec::new();
    signer_seeds.push(signer(AUTHORITY_SEED.as_slice(), authority_bump));
    assert(signer_seeds.deep_view() =~= seq![authority_signer(authority_bump@)]);
    signer_seeds
}

/// Whether a computed plan is the expected one: the same failure, or the same actions.
pub open spec fn plan_matches(res: Result<Vec<Action>, ErrorCode>, expected: Result<Seq<ActionView>, ErrorCode>) -> bool {
    match expected {
        Ok(actions) => res is Ok && res->Ok_0.deep_view() == actions,
        Err(e) => res == Err::<Vec<Action>, ErrorCode>(e),
    }
}

} // verus!
