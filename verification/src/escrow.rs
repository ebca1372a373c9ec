use vstd::prelude::*;
use crate::actions::{
    authority_seeds, authority_signer, plain, plain_action, signed, signer, wsol_signer, Action, ActionView, Operation,
    OperationView,
};
use crate::address::{lemma_same_bytes_same_address, Address};
use crate::constants::{AUTHORITY_SEED, TOKEN_ACCOUNT_LEN, WSOL_SEED};
use crate::errors::ErrorCode;
use crate::actions::plan_matches;
use crate::token::{kept_in, read_token_account, storage_reading, TokenAccount};

verus! {

/// What it takes to have the escrow open.
#[derive(Clone, Debug, PartialEq, Eq)]
pub enum EscrowOpening {
    /// The escrow is open already and belongs to the program authority: this is its state.
    Open { account: TokenAccount },
    /// The escrow is absent: carrying these actions out creates it.
    Create { actions: Vec<Action> },
}

/// An opening as contracts speak of it.
pub enum EscrowOpeningView {
    Open { account: TokenAccount },
    Create { actions: Seq<ActionView> },
}

impl DeepView for EscrowOpening {
    type V = EscrowOpeningView;

    open spec fn deep_view(&self) -> EscrowOpeningView {
        match *self {
            EscrowOpening::Open { account } => EscrowOpeningView::Open { account },
            EscrowOpening::Create { actions } => EscrowOpeningView::Create { actions: actions.deep_view() },
        }
    }
}

/// What creating the escrow asks of the ledger: storage for one token account at the
/// escrow address, funded by the program authority with exactly the balance that keeps
/// it alive and signed by both derived addresses; then its initialisation as an account
/// of the wrapped mint that the program authority owns.
pub open spec fn escrow_creation(
    program_authority: Address,
    program_wsol: Address,
    sol_mint: Address,
    token_program: Address,
    system_program: Address,
    rent_exempt_minimum: u64,
    authority_bump: Seq<u8>,
    wsol_bump: Seq<u8>,
) -> Seq<ActionView> {
    seq![
        ActionView {
            operation: OperationView::CreateAccount {
                program: system_program,
                from: program_authority,
                to: program_wsol,
                lamports: rent_exempt_minimum,
                space: TOKEN_ACCOUNT_LEN,
                owner: token_program,
            },
            signer_seeds: seq![authority_signer(authority_bump), wsol_signer(wsol_bump)],
        },
        plain_action(
            OperationView::InitializeAccount3 {
                program: token_program,
                account: program_wsol,
                mint: sol_mint,
                authority: program_authority,
            },
        ),
    ]
}

/// What opening asks for, given what the escrow's storage holds: creation where it holds
/// nothing; nothing where it holds an account of the program authority; and a refusal
/// where the account is someone else's.
pub open spec fn escrow_opening(
    held: Option<TokenAccount>,
    program_authority: Address,
    program_wsol: Address,
    sol_mint: Address,
    token_program: Address,
    system_program: Address,
    rent_exempt_minimum: u64,
    authority_bump: Seq<u8>,
    wsol_bump: Seq<u8>,
) -> Result<EscrowOpeningView, ErrorCode> {
    match held {
        None => Ok(
            EscrowOpeningView::Create {
                actions: escrow_creation(
                    program_authority,
                    program_wsol,
                    sol_mint,
                    token_program,
                    system_program,
                    rent_exempt_minimum,
                    authority_bump,
                    wsol_bump,
                ),
            },
        ),
        Some(account) => if account.owner != program_authority {
            Err(ErrorCode::IncorrectOwner)
        } else {
            Ok(EscrowOpeningView::Open { account })
        },
    }
}

/// Whether a computed opening is the expected one.
pub open spec fn opening_matches(res: Result<EscrowOpening, ErrorCode>, expected: Result<EscrowOpeningView, ErrorCode>) -> bool {
    match expected {
        Ok(opening) => res is Ok && res->Ok_0.deep_view() == opening,
        Err(e) => res == Err::<EscrowOpening, ErrorCode>(e),
    }
}

/// Decides how to open the escrow from what its storage was read to hold.
pub fn open_program_wsol(
    held: Option<TokenAccount>,
    program_authority: &Address,
    program_wsol: &Address,
    sol_mint: &Address,
    token_program: &Address,
    system_program: &Address,
    rent_exempt_minimum: u64,
    authority_bump: &[u8],
    wsol_bump: &[u8],
) -> (res: Result<EscrowOpening, ErrorCode>)
    ensures
        opening_matches(
            res,
            escrow_opening(
                held,
                *program_authority,
                *program_wsol,
                *sol_mint,
                *token_program,
                *system_program,
                rent_exempt_minimum,
                authority_bump@,
                wsol_bump@,
            ),
        ),
{
    match held {
        Some(account) => {
            if !account.owner.same(program_authority) {
                return Err(ErrorCode::IncorrectOwner);
            }
            Ok(EscrowOpening::Open { account })
        },
        None => {
            let mut signer_seeds: Vec<Vec<Vec<u8>>> = Vec::new();
            signer_seeds.push(signer(AUTHORITY_SEED.as_slice(), authority_bump));
            signer_seeds.push(signer(WSOL_SEED.as_slice(), wsol_bump));
            assert(signer_seeds.deep_view() =~= seq![authority_signer(authority_bump@), wsol_signer(wsol_bump@)]);
            let mut actions: Vec<Action> = Vec::new();
            actions.push(
                signed(
                    Operation::CreateAccount {
                        program: *system_program,
                        from: *program_authority,
                        to: *program_wsol,
                        lamports: rent_exempt_minimum,
                        space: TOKEN_ACCOUNT_LEN,
                        owner: *token_program,
                    },
                    signer_seeds,
                ),
            );
            actions.push(
                plain(
                    Operation::InitializeAccount3 {
                        program: *token_program,
                        account: *program_wsol,
                        mint: *sol_mint,
                        authority: *program_authority,
                    },
                ),
            );
            assert(actions.deep_view() =~= escrow_creation(
                *program_authority,
                *program_wsol,
                *sol_mint,
                *token_program,
                *system_program,
                rent_exempt_minimum,
                authority_bump@,
                wsol_bump@,
            ));
            Ok(EscrowOpening::Create { actions })
        },
    }
}

/// What opening asks for, given the bytes of the escrow's storage.
pub open spec fn escrow_opening_from(
    wsol_data: Seq<u8>,
    program_authority: Address,
    program_wsol: Address,
    sol_mint: Address,
    token_program: Address,
    system_program: Address,
    rent_exempt_minimum: u64,
    authority_bump: Seq<u8>,
    wsol_bump: Seq<u8>,
) -> Result<EscrowOpeningView, ErrorCode> {
    match storage_reading(wsol_data) {
        Err(e) => Err(e),
        Ok(held) => escrow_opening(
            held,
            program_authority,
            program_wsol,
            sol_mint,
            token_program,
            system_program,
            rent_exempt_minimum,
            authority_bump,
            wsol_bump,
        ),
    }
}

/// Opens the escrow if it is not open yet. `wsol_data` is the escrow's storage as it
/// stands, `rent_exempt_minimum` the balance that keeps a token account alive. An open
/// escrow is never initialised again: its owner is checked, and that is all.
pub fn create_program_wsol_idempotent(
    program_authority: &Address,
    program_wsol: &Address,
    wsol_data: &[u8],
    sol_mint: &Address,
    token_program: &Address,
    system_program: &Address,
    rent_exempt_minimum: u64,
    authority_bump: &[u8],
    wsol_bump: &[u8],
) -> (res: Result<EscrowOpening, ErrorCode>)
    ensures
        opening_matches(
            res,
            escrow_opening_from(
                wsol_data@,
                *program_authority,
                *program_wsol,
                *sol_mint,
                *token_program,
                *system_program,
                rent_exempt_minimum,
                authority_bump@,
                wsol_bump@,
            ),
        ),
        res matches Ok(EscrowOpening::Open { account }) ==> kept_in(account, wsol_data@),
        res matches Ok(EscrowOpening::Create { actions }) ==> wsol_data@.len() == 0,
        res == Err::<EscrowOpening, ErrorCode>(ErrorCode::IncorrectOwner) ==> wsol_data@.len() == TOKEN_ACCOUNT_LEN
            && wsol_data@.subrange(32, 64) != program_authority@,
{
    let held = match read_token_account(wsol_data) {
        Ok(held) => held,
        Err(e) => {
            return Err(e);
        },
    };
    proof {
        if let Some(account) = held {
            lemma_same_bytes_same_address(account.owner, *program_authority);
        }
    }
    open_program_wsol(
        held,
        program_authority,
        program_wsol,
        sol_mint,
        token_program,
        system_program,
        rent_exempt_minimum,
        authority_bump,
        wsol_bump,
    )
}

/// What closing the escrow leaves above its reserve, if its balance covers the reserve.
pub open spec fn swept_amount(wsol_balance: u64, rent_exempt_minimum: u64) -> Result<u64, ErrorCode> {
    if wsol_balance < rent_exempt_minimum {
        Err(ErrorCode::Underflow)
    } else {
        Ok((wsol_balance - rent_exempt_minimum) as u64)
    }
}

/// What closing the escrow asks of the ledger, both steps signed by the program
/// authority: release the escrow with its whole balance going to the authority, then
/// pass what was above the reserve on to the receiver.
pub open spec fn escrow_closing(
    program_authority: Address,
    program_wsol: Address,
    wsol_balance: u64,
    receiver: Address,
    token_program: Address,
    system_program: Address,
    rent_exempt_minimum: u64,
    authority_bump: Seq<u8>,
) -> Result<Seq<ActionView>, ErrorCode> {
    match swept_amount(wsol_balance, rent_exempt_minimum) {
        Err(e) => Err(e),
        Ok(out_amount) => Ok(
            seq![
                ActionView {
                    operation: OperationView::CloseAccount {
                        program: token_program,
                        account: program_wsol,
                        destination: program_authority,
                        authority: program_authority,
                    },
                    signer_seeds: seq![authority_signer(authority_bump)],
                },
                ActionView {
                    operation: OperationView::SystemTransfer {
                        program: system_program,
                        from: program_authority,
                        to: receiver,
                        lamports: out_amount,
                    },
                    signer_seeds: seq![authority_signer(authority_bump)],
                },
            ],
        ),
    }
}

/// Plans the closing of the escrow. `wsol_balance` is the escrow's native balance as it
/// stands, `rent_exempt_minimum` the balance that keeps a token account alive.
pub fn close_program_wsol(
    program_authority: &Address,
    program_wsol: &Address,
    wsol_balance: u64,
    receiver: &Address,
    token_program: &Address,
    system_program: &Address,
    rent_exempt_minimum: u64,
    authority_bump: &[u8],
) -> (res: Result<Vec<Action>, ErrorCode>)
    ensures
        plan_matches(
            res,
            escrow_closing(
                *program_authority,
                *program_wsol,
                wsol_balance,
                *receiver,
                *token_program,
                *system_program,
                rent_exempt_minimum,
                authority_bump@,
            ),
        ),
{
    let out_amount = match wsol_balance.checked_sub(rent_exempt_minimum) {
        Some(out_amount) => out_amount,
        None => {
            return Err(ErrorCode::Underflow);
        },
    };
    let mut plan: Vec<Action> = Vec::new();
    plan.push(
        signed(
            Operation::CloseAccount {
                program: *token_program,
                account: *program_wsol,
                destination: *program_authority,
                authority: *program_authority,
            },
            authority_seeds(authority_bump),
        ),
    );
    plan.push(
        signed(
            Operation::SystemTransfer {
                program: *system_program,
                from: *program_authority,
                to: *receiver,
                lamports: out_amount,
            },
            authority_seeds(authority_bump),
        ),
    );
    assert(plan.deep_view() =~= escrow_closing(
        *program_authority,
        *program_wsol,
        wsol_balance,
        *receiver,
        *token_program,
        *system_program,
        rent_exempt_minimum,
        authority_bump@,
    )->Ok_0);
    Ok(plan)
}

} // verus!
