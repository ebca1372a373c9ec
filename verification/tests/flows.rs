use solana_aggr::actions::{AccountMeta, Action, AuxiliaryAccount, Instruction, Operation, TakeFee};
use solana_aggr::address::Address;
use solana_aggr::constants::NATIVE_MINT;
use solana_aggr::errors::ErrorCode;
use solana_aggr::token::LoadedTokenAccount;
use solana_aggr::instructions::close_program_wsol::{close_program_wsol, CloseProgramWsol};
use solana_aggr::instructions::create_program_wsol_idempotent::{
    create_program_wsol_idempotent, CreateWsolTokenIdempotent,
};
use solana_aggr::instructions::flow::{FlowState, Step};
use solana_aggr::instructions::swap_sol_for_tokens::{swap_sol_for_tokens, SwapSolForTokens};
use solana_aggr::instructions::swap_tokens_for_sol::{swap_tokens_for_sol, LedgerReading, SwapTokensForSol};
use solana_aggr::instructions::swap_tokens_for_tokens::{swap_tokens_for_tokens, SwapTokensForTokens};
use solana_aggr::instructions::take_integrator_fee::{take_integrator_fee, TakeIntegratorFee};
use solana_aggr::escrow::EscrowOpening;
use solana_aggr::token::TokenAccount;

const RESERVE: u64 = 2_039_280;
const SYSTEM: u8 = 0;
const USER: u8 = 1;
const TOKEN: u8 = 2;
const SOURCE: u8 = 3;
const UNIZEN: u8 = 4;
const INTEGRATOR: u8 = 5;
const DESTINATION: u8 = 6;
const ENGINE: u8 = 7;
const SRC_MINT: u8 = 8;
const DST_MINT: u8 = 9;
const AUTHORITY: u8 = 10;
const WSOL: u8 = 11;
const RECEIVER: u8 = 12;

fn key(tag: u8) -> Address {
    Address::new([tag; 32])
}

fn native() -> Address {
    Address::new(NATIVE_MINT)
}

fn loaded(tag: u8, mint: Address, owner: u8, amount: u64) -> LoadedTokenAccount {
    LoadedTokenAccount { key: key(tag), state: TokenAccount { mint, owner: key(owner), amount } }
}

fn remaining() -> Vec<AuxiliaryAccount> {
    vec![
        AuxiliaryAccount { key: key(SOURCE), is_signer: false, is_writable: true },
        AuxiliaryAccount { key: key(USER), is_signer: true, is_writable: false },
        AuxiliaryAccount { key: key(DESTINATION), is_signer: false, is_writable: true },
    ]
}

fn payload() -> Vec<u8> {
    vec![229, 23, 203, 151, 122, 227, 173, 42, 0, 1]
}

fn plain(operation: Operation) -> Action {
    Action { operation, signer_seeds: vec![] }
}

fn by_authority(operation: Operation) -> Action {
    Action { operation, signer_seeds: vec![vec![b"authority".to_vec(), vec![251]]] }
}

fn record(mint: Address, amount: u64, fee_percent: u64, share_percent: u64) -> Action {
    plain(Operation::Emit {
        record: TakeFee {
            user: key(USER).to_string(),
            token: mint.to_string(),
            amount,
            fee_percent,
            share_percent,
        },
    })
}

fn fee(to: u8, amount: u64) -> Action {
    plain(Operation::TokenTransfer {
        program: key(TOKEN),
        from: key(SOURCE),
        to: key(to),
        authority: key(USER),
        amount,
    })
}

fn invoke() -> Action {
    by_authority(Operation::Invoke {
        instruction: Instruction {
            program_id: key(ENGINE),
            accounts: vec![
                AccountMeta { pubkey: key(SOURCE), is_signer: false, is_writable: true },
                AccountMeta { pubkey: key(USER), is_signer: true, is_writable: false },
                AccountMeta { pubkey: key(DESTINATION), is_signer: false, is_writable: true },
            ],
            data: payload(),
        },
    })
}

fn creation() -> Vec<Action> {
    vec![
        Action {
            operation: Operation::CreateAccount {
                program: key(SYSTEM),
                from: key(AUTHORITY),
                to: key(WSOL),
                lamports: RESERVE,
                space: 165,
                owner: key(TOKEN),
            },
            signer_seeds: vec![vec![b"authority".to_vec(), vec![251]], vec![b"wsol".to_vec(), vec![250]]],
        },
        plain(Operation::InitializeAccount3 {
            program: key(TOKEN),
            account: key(WSOL),
            mint: native(),
            authority: key(AUTHORITY),
        }),
    ]
}

fn closing(out_amount: u64) -> Vec<Action> {
    vec![
        by_authority(Operation::CloseAccount {
            program: key(TOKEN),
            account: key(WSOL),
            destination: key(AUTHORITY),
            authority: key(AUTHORITY),
        }),
        by_authority(Operation::SystemTransfer {
            program: key(SYSTEM),
            from: key(AUTHORITY),
            to: key(RECEIVER),
            lamports: out_amount,
        }),
    ]
}

fn packed(mint: Address, owner: Address, amount: u64) -> Vec<u8> {
    let mut data = vec![0u8; 165];
    data[0..32].copy_from_slice(&mint.to_bytes());
    data[32..64].copy_from_slice(&owner.to_bytes());
    data[64..72].copy_from_slice(&amount.to_le_bytes());
    data[108] = 1;
    data
}

fn tokens_for_tokens() -> SwapTokensForTokens {
    SwapTokensForTokens {
        user: key(USER),
        src_token: key(SRC_MINT),
        user_src_ata: loaded(SOURCE, key(SRC_MINT), USER, 5_000_000),
        receiver_dst_ata: loaded(DESTINATION, key(DST_MINT), RECEIVER, 100),
        unizen_src_ata: loaded(UNIZEN, key(SRC_MINT), 40, 0),
        integrator_src_ata: loaded(INTEGRATOR, key(SRC_MINT), 50, 0),
        jupiter_program: key(ENGINE),
        token_program: key(TOKEN),
        system_program: key(SYSTEM),
        authority_bump: 251,
        remaining_accounts: remaining(),
    }
}

fn sol_for_tokens() -> SwapSolForTokens {
    SwapSolForTokens {
        user: key(USER),
        sol_mint: native(),
        user_wsol_ata: loaded(SOURCE, native(), USER, 0),
        receiver_dst_ata: loaded(DESTINATION, key(DST_MINT), RECEIVER, 100),
        unizen_wsol_ata: loaded(UNIZEN, native(), 40, 0),
        integrator_wsol_ata: loaded(INTEGRATOR, native(), 50, 0),
        jupiter_program: key(ENGINE),
        token_program: key(TOKEN),
        system_program: key(SYSTEM),
        authority_bump: 251,
        remaining_accounts: remaining(),
    }
}

fn tokens_for_sol() -> SwapTokensForSol {
    SwapTokensForSol {
        program_authority: key(AUTHORITY),
        program_wsol: key(WSOL),
        user: key(USER),
        receiver: key(RECEIVER),
        src_token: key(SRC_MINT),
        sol_mint: native(),
        user_src_ata: loaded(SOURCE, key(SRC_MINT), USER, 5_000_000),
        unizen_src_ata: loaded(UNIZEN, key(SRC_MINT), 40, 0),
        integrator_src_ata: loaded(INTEGRATOR, key(SRC_MINT), 50, 0),
        jupiter_program: key(ENGINE),
        token_program: key(TOKEN),
        system_program: key(SYSTEM),
        authority_bump: 251,
        wsol_bump: 250,
        remaining_accounts: remaining(),
    }
}

fn reading(wsol_data: Vec<u8>, wsol_lamports: u64, receiver_lamports: u64) -> LedgerReading {
    LedgerReading { wsol_data, wsol_lamports, rent_exempt_minimum: RESERVE, receiver_lamports }
}

fn open_escrow() -> Vec<u8> {
    packed(native(), key(AUTHORITY), 0)
}

#[test]
fn tokens_for_tokens_runs_fee_engine_and_floor_in_order() {
    let ctx = tokens_for_tokens();
    let step = |state, reloaded| swap_tokens_for_tokens(&ctx, state, reloaded, 1_000_000, 50, 100, 2000, &payload());
    assert_eq!(
        step(FlowState::Start, 0),
        Ok(Step {
            next: FlowState::FeeTaken,
            actions: vec![record(key(SRC_MINT), 1_000_000, 100, 2000), fee(UNIZEN, 2_000), fee(INTEGRATOR, 8_000)],
        })
    );
    assert_eq!(
        step(FlowState::FeeTaken, 100),
        Ok(Step { next: FlowState::Delegated { balance_before: 100 }, actions: vec![invoke()] })
    );
    assert_eq!(
        step(FlowState::Delegated { balance_before: 100 }, 150),
        Ok(Step { next: FlowState::Verified, actions: vec![] })
    );
    assert_eq!(step(FlowState::Verified, 150), Ok(Step { next: FlowState::Done, actions: vec![] }));
    assert_eq!(step(FlowState::Done, 150), Ok(Step { next: FlowState::Done, actions: vec![] }));
}

#[test]
fn tokens_for_tokens_source_is_charged_the_whole_fee_before_the_engine_runs() {
    let ctx = tokens_for_tokens();
    let first = swap_tokens_for_tokens(&ctx, FlowState::Start, 0, 1_000_000, 50, 100, 2000, &payload()).unwrap();
    let mut charged = 0u64;
    for action in &first.actions {
        match &action.operation {
            Operation::TokenTransfer { from, amount, .. } => {
                assert_eq!(*from, key(SOURCE));
                charged += amount;
            }
            Operation::Emit { .. } => {}
            other => panic!("{:?} comes before the fee is taken", other),
        }
    }
    assert_eq!(charged, 10_000);
    assert_eq!(first.next, FlowState::FeeTaken);
}

#[test]
fn tokens_for_tokens_stops_below_the_floor() {
    let ctx = tokens_for_tokens();
    let step = |state, reloaded| swap_tokens_for_tokens(&ctx, state, reloaded, 1_000_000, 60, 100, 2000, &payload());
    assert_eq!(step(FlowState::Delegated { balance_before: 100 }, 150), Err(ErrorCode::InvalidSwapAmount));
    assert_eq!(step(FlowState::Delegated { balance_before: 100 }, 160), Ok(Step { next: FlowState::Verified, actions: vec![] }));
    assert_eq!(step(FlowState::Delegated { balance_before: 100 }, 90), Err(ErrorCode::Underflow));
}

#[test]
fn tokens_for_tokens_stops_on_a_fee_that_cannot_be_split() {
    let ctx = tokens_for_tokens();
    assert_eq!(
        swap_tokens_for_tokens(&ctx, FlowState::Start, 0, u64::MAX, 0, 10_001, 0, &payload()),
        Err(ErrorCode::Overflow)
    );
    assert_eq!(
        swap_tokens_for_tokens(&ctx, FlowState::Start, 0, 1_000_000, 0, 100, 20_000, &payload()),
        Err(ErrorCode::Underflow)
    );
}

#[test]
fn tokens_for_tokens_with_zero_fee_still_publishes_the_record() {
    let ctx = tokens_for_tokens();
    assert_eq!(
        swap_tokens_for_tokens(&ctx, FlowState::Start, 0, 1_000_000, 50, 0, 2000, &payload()),
        Ok(Step { next: FlowState::FeeTaken, actions: vec![record(key(SRC_MINT), 1_000_000, 0, 2000)] })
    );
}

#[test]
fn tokens_for_tokens_passes_over_the_escrow_stages() {
    let ctx = tokens_for_tokens();
    let step = |state, reloaded| swap_tokens_for_tokens(&ctx, state, reloaded, 1_000_000, 50, 100, 2000, &payload());
    assert_eq!(
        step(FlowState::EscrowReady, 100),
        Ok(Step { next: FlowState::Delegated { balance_before: 100 }, actions: vec![invoke()] })
    );
    assert_eq!(
        step(FlowState::EscrowClosed { balance_before: 100 }, 150),
        Ok(Step { next: FlowState::Verified, actions: vec![] })
    );
    assert_eq!(step(FlowState::EscrowClosed { balance_before: 100 }, 149), Err(ErrorCode::InvalidSwapAmount));
}

#[test]
fn sol_for_tokens_wraps_before_it_takes_the_fee() {
    let ctx = sol_for_tokens();
    let step = |state, reloaded| swap_sol_for_tokens(&ctx, state, reloaded, 1_000_000, 50, 100, 2000, &payload());
    assert_eq!(
        step(FlowState::Start, 0),
        Ok(Step {
            next: FlowState::FeeTaken,
            actions: vec![
                plain(Operation::SystemTransfer {
                    program: key(SYSTEM),
                    from: key(USER),
                    to: key(SOURCE),
                    lamports: 1_000_000,
                }),
                plain(Operation::SyncNative { program: key(TOKEN), account: key(SOURCE) }),
                record(native(), 1_000_000, 100, 2000),
                fee(UNIZEN, 2_000),
                fee(INTEGRATOR, 8_000),
            ],
        })
    );
    assert_eq!(
        step(FlowState::FeeTaken, 100),
        Ok(Step { next: FlowState::Delegated { balance_before: 100 }, actions: vec![invoke()] })
    );
    assert_eq!(
        step(FlowState::Delegated { balance_before: 100 }, 150),
        Ok(Step { next: FlowState::Verified, actions: vec![] })
    );
    assert_eq!(step(FlowState::Delegated { balance_before: 100 }, 149), Err(ErrorCode::InvalidSwapAmount));
    assert_eq!(step(FlowState::Delegated { balance_before: 100 }, 99), Err(ErrorCode::Underflow));
    assert_eq!(step(FlowState::Verified, 0), Ok(Step { next: FlowState::Done, actions: vec![] }));
}

#[test]
fn sol_for_tokens_wraps_nothing_when_the_fee_cannot_be_split() {
    let ctx = sol_for_tokens();
    assert_eq!(
        swap_sol_for_tokens(&ctx, FlowState::Start, 0, u64::MAX, 0, 20_000, 0, &payload()),
        Err(ErrorCode::Overflow)
    );
}

#[test]
fn tokens_for_sol_opens_the_escrow_and_sweeps_it_to_the_receiver() {
    let ctx = tokens_for_sol();
    let step = |state, reading: &LedgerReading| {
        swap_tokens_for_sol(&ctx, state, reading, 1_000_000, 700, 100, 2000, &payload())
    };
    assert_eq!(
        step(FlowState::Start, &reading(vec![], 0, 5_000)),
        Ok(Step {
            next: FlowState::FeeTaken,
            actions: vec![record(key(SRC_MINT), 1_000_000, 100, 2000), fee(UNIZEN, 2_000), fee(INTEGRATOR, 8_000)],
        })
    );
    assert_eq!(
        step(FlowState::FeeTaken, &reading(vec![], 0, 5_000)),
        Ok(Step { next: FlowState::EscrowReady, actions: creation() })
    );
    assert_eq!(
        step(FlowState::EscrowReady, &reading(open_escrow(), RESERVE, 5_000)),
        Ok(Step { next: FlowState::Delegated { balance_before: 5_000 }, actions: vec![invoke()] })
    );
    assert_eq!(
        step(FlowState::Delegated { balance_before: 5_000 }, &reading(open_escrow(), RESERVE + 750, 5_000)),
        Ok(Step { next: FlowState::EscrowClosed { balance_before: 5_000 }, actions: closing(750) })
    );
    assert_eq!(
        step(FlowState::EscrowClosed { balance_before: 5_000 }, &reading(vec![], 0, 5_750)),
        Ok(Step { next: FlowState::Verified, actions: vec![] })
    );
    assert_eq!(
        step(FlowState::Verified, &reading(vec![], 0, 5_750)),
        Ok(Step { next: FlowState::Done, actions: vec![] })
    );
    assert_eq!(step(FlowState::Done, &reading(vec![], 0, 5_750)), Ok(Step { next: FlowState::Done, actions: vec![] }));
}

#[test]
fn tokens_for_sol_leaves_an_open_escrow_as_it_is() {
    let ctx = tokens_for_sol();
    assert_eq!(
        swap_tokens_for_sol(&ctx, FlowState::FeeTaken, &reading(open_escrow(), RESERVE, 0), 1, 0, 0, 0, &[]),
        Ok(Step { next: FlowState::EscrowReady, actions: vec![] })
    );
}

#[test]
fn tokens_for_sol_refuses_an_escrow_of_another_owner() {
    let ctx = tokens_for_sol();
    let taken = packed(native(), key(USER), 0);
    assert_eq!(
        swap_tokens_for_sol(&ctx, FlowState::FeeTaken, &reading(taken, RESERVE, 0), 1, 0, 0, 0, &[]),
        Err(ErrorCode::IncorrectOwner)
    );
}

#[test]
fn tokens_for_sol_does_not_delegate_without_a_readable_escrow() {
    let ctx = tokens_for_sol();
    let step = |data: Vec<u8>| swap_tokens_for_sol(&ctx, FlowState::EscrowReady, &reading(data, RESERVE, 0), 1, 0, 0, 0, &[]);
    assert_eq!(step(vec![]), Err(ErrorCode::Ledger(4 << 32)));
    assert_eq!(step(vec![0; 165]), Err(ErrorCode::Ledger(10 << 32)));
}

#[test]
fn tokens_for_sol_stops_when_the_escrow_fell_below_its_reserve() {
    let ctx = tokens_for_sol();
    assert_eq!(
        swap_tokens_for_sol(
            &ctx,
            FlowState::Delegated { balance_before: 5_000 },
            &reading(open_escrow(), RESERVE - 1, 5_000),
            1_000_000,
            700,
            100,
            2000,
            &payload()
        ),
        Err(ErrorCode::Underflow)
    );
}

#[test]
fn tokens_for_sol_holds_the_receiver_s_balance_against_the_floor() {
    let ctx = tokens_for_sol();
    let step = |now| {
        swap_tokens_for_sol(
            &ctx,
            FlowState::EscrowClosed { balance_before: 5_000 },
            &reading(vec![], 0, now),
            1_000_000,
            700,
            100,
            2000,
            &payload(),
        )
    };
    assert_eq!(step(5_699), Err(ErrorCode::InvalidSwapAmount));
    assert_eq!(step(5_700), Ok(Step { next: FlowState::Verified, actions: vec![] }));
    assert_eq!(step(4_999), Err(ErrorCode::Underflow));
}

#[test]
fn fee_alone_is_planned_like_any_fee() {
    let ctx = TakeIntegratorFee {
        user: key(USER),
        token: key(SRC_MINT),
        user_ata: loaded(SOURCE, key(SRC_MINT), USER, 5_000_000),
        unizen_ata: loaded(UNIZEN, key(SRC_MINT), 40, 0),
        integrator_ata: loaded(INTEGRATOR, key(SRC_MINT), 50, 0),
        token_program: key(TOKEN),
        system_program: key(SYSTEM),
    };
    assert_eq!(
        take_integrator_fee(&ctx, 1_000_000, 100, 2000),
        Ok(vec![record(key(SRC_MINT), 1_000_000, 100, 2000), fee(UNIZEN, 2_000), fee(INTEGRATOR, 8_000)])
    );
    assert_eq!(take_integrator_fee(&ctx, 1_000_000, 0, 2000), Ok(vec![record(key(SRC_MINT), 1_000_000, 0, 2000)]));
    assert_eq!(take_integrator_fee(&ctx, 1_000_000, 100, 10_001), Err(ErrorCode::Underflow));
}

#[test]
fn escrow_is_opened_and_closed_on_its_own() {
    let open = CreateWsolTokenIdempotent {
        program_authority: key(AUTHORITY),
        program_wsol: key(WSOL),
        sol_mint: native(),
        token_program: key(TOKEN),
        system_program: key(SYSTEM),
        authority_bump: 251,
        wsol_bump: 250,
    };
    assert_eq!(
        create_program_wsol_idempotent(&open, &[], RESERVE),
        Ok(EscrowOpening::Create { actions: creation() })
    );
    assert_eq!(
        create_program_wsol_idempotent(&open, &open_escrow(), RESERVE),
        Ok(EscrowOpening::Open { account: TokenAccount { mint: native(), owner: key(AUTHORITY), amount: 0 } })
    );
    assert_eq!(
        create_program_wsol_idempotent(&open, &packed(native(), key(WSOL), 0), RESERVE),
        Err(ErrorCode::IncorrectOwner)
    );
    let close = CloseProgramWsol {
        program_authority: key(AUTHORITY),
        program_wsol: key(WSOL),
        receiver: key(RECEIVER),
        token_program: key(TOKEN),
        system_program: key(SYSTEM),
        authority_bump: 251,
    };
    assert_eq!(close_program_wsol(&close, RESERVE, RESERVE), Ok(closing(0)));
    assert_eq!(close_program_wsol(&close, RESERVE + 9, RESERVE), Ok(closing(9)));
    assert_eq!(close_program_wsol(&close, 0, RESERVE), Err(ErrorCode::Underflow));
}

#[test]
fn tokens_for_tokens_measures_the_floor_from_just_before_the_engine_runs() {
    // The destination was loaded holding 100; the fee then paid 8 into it.
    let ctx = tokens_for_tokens();
    let step = |state, held| swap_tokens_for_tokens(&ctx, state, held, 1_000_000, 45, 100, 2000, &payload());
    assert_eq!(ctx.receiver_dst_ata.state.amount, 100);
    assert_eq!(
        step(FlowState::FeeTaken, 108),
        Ok(Step { next: FlowState::Delegated { balance_before: 108 }, actions: vec![invoke()] })
    );
    assert_eq!(step(FlowState::Delegated { balance_before: 108 }, 150), Err(ErrorCode::InvalidSwapAmount));
    assert_eq!(
        step(FlowState::Delegated { balance_before: 108 }, 153),
        Ok(Step { next: FlowState::Verified, actions: vec![] })
    );
    assert_eq!(step(FlowState::Delegated { balance_before: 108 }, 107), Err(ErrorCode::Underflow));
}

#[test]
fn sol_for_tokens_measures_the_floor_from_just_before_the_engine_runs() {
    let ctx = sol_for_tokens();
    let step = |state, held| swap_sol_for_tokens(&ctx, state, held, 1_000_000, 45, 100, 2000, &payload());
    assert_eq!(ctx.receiver_dst_ata.state.amount, 100);
    assert_eq!(
        step(FlowState::FeeTaken, 108),
        Ok(Step { next: FlowState::Delegated { balance_before: 108 }, actions: vec![invoke()] })
    );
    assert_eq!(step(FlowState::Delegated { balance_before: 108 }, 150), Err(ErrorCode::InvalidSwapAmount));
    assert_eq!(
        step(FlowState::Delegated { balance_before: 108 }, 153),
        Ok(Step { next: FlowState::Verified, actions: vec![] })
    );
}

#[test]
fn every_swap_hands_over_under_the_program_authority_s_seeds() {
    let expected = vec![vec![b"authority".to_vec(), vec![251]]];
    let tokens = swap_tokens_for_tokens(&tokens_for_tokens(), FlowState::FeeTaken, 0, 1, 0, 0, 0, &payload()).unwrap();
    let native = swap_sol_for_tokens(&sol_for_tokens(), FlowState::FeeTaken, 0, 1, 0, 0, 0, &payload()).unwrap();
    let out = swap_tokens_for_sol(
        &tokens_for_sol(),
        FlowState::EscrowReady,
        &reading(open_escrow(), RESERVE, 0),
        1,
        0,
        0,
        0,
        &payload(),
    )
    .unwrap();
    for step in [tokens, native, out] {
        assert_eq!(step.actions.len(), 1);
        assert!(matches!(step.actions[0].operation, Operation::Invoke { .. }));
        assert_eq!(step.actions[0].signer_seeds, expected);
    }
}
