use vstd::prelude::*;
use crate::address::Address;
use crate::constants::FEE_DENOM;
use crate::errors::ErrorCode;
use crate::escrow::{escrow_closing, escrow_creation, escrow_opening, EscrowOpeningView};
use crate::fees::{fee_plan, fee_split_of, total_fee, AccountsForFee};
use crate::floor::amount_out_verdict;
use crate::instructions::flow::{FlowState, StepView};
use crate::instructions::swap_sol_for_tokens::{sol_for_tokens_step, SwapSolForTokens};
use crate::instructions::swap_tokens_for_sol::{tokens_for_sol_step, LedgerReading, SwapTokensForSol};
use crate::instructions::swap_tokens_for_tokens::{tokens_for_tokens_step, SwapTokensForTokens};
use crate::ledger::{is_native, lemma_run_first, lemma_run_one, lemma_run_two, Ledger};
use crate::token::TokenAccount;
use crate::wrap::wrap_plan;

verus! {

/// What carrying a fee plan out comes to: nothing for a fee of zero percent; else the
/// transfer to the protocol, where it has a share, and then the transfer to the
/// integrator. `None` as soon as the ledger refuses one.
pub open spec fn fee_outcome(
    accounts: AccountsForFee,
    in_amount: u64,
    fee_percent: u64,
    share_percent: u64,
    ledger: Ledger,
) -> Option<Ledger> {
    let split = fee_split_of(in_amount, fee_percent, share_percent)->Ok_0;
    let payer = accounts.user_token_account.key;
    if fee_percent == 0 {
        Some(ledger)
    } else if share_percent > 0 {
        match ledger.token_transfer(payer, accounts.unizen_token_account.key, accounts.user, split.protocol_fee) {
            Some(paid) => paid.token_transfer(
                payer,
                accounts.integrator_token_account.key,
                accounts.user,
                split.integrator_fee,
            ),
            None => None,
        }
    } else {
        ledger.token_transfer(payer, accounts.integrator_token_account.key, accounts.user, split.integrator_fee)
    }
}

/// Carrying a fee plan out comes to `fee_outcome`: the record changes nothing, and the
/// transfers follow in the plan's order.
pub proof fn lemma_fee_plan_runs(
    accounts: AccountsForFee,
    in_amount: u64,
    fee_percent: u64,
    share_percent: u64,
    ledger: Ledger,
)
    requires
        fee_plan(accounts, in_amount, fee_percent, share_percent) is Ok,
    ensures
        ledger.run(fee_plan(accounts, in_amount, fee_percent, share_percent)->Ok_0) == fee_outcome(
            accounts,
            in_amount,
            fee_percent,
            share_percent,
            ledger,
        ),
{
    let plan = fee_plan(accounts, in_amount, fee_percent, share_percent)->Ok_0;
    if fee_percent == 0 {
        assert(plan =~= seq![plan[0]]);
        lemma_run_one(ledger, plan[0]);
    } else if share_percent > 0 {
        let transfers = seq![plan[1], plan[2]];
        assert(plan =~= seq![plan[0]] + transfers);
        lemma_run_first(ledger, plan[0], transfers);
        lemma_run_two(ledger, transfers);
    } else {
        lemma_run_two(ledger, plan);
    }
}

/// A fee of zero percent moves nothing: the plan holds the record alone, and carrying
/// it out leaves the ledger as it was, whatever the amount and the share.
pub proof fn lemma_zero_fee_moves_nothing(accounts: AccountsForFee, in_amount: u64, share_percent: u64, ledger: Ledger)
    ensures
        fee_plan(accounts, in_amount, 0, share_percent) matches Ok(plan) && {
            &&& plan.len() == 1
            &&& plan[0].operation is Emit
            &&& ledger.run(plan) == Some(ledger)
        },
{
    lemma_fee_plan_runs(accounts, in_amount, 0, share_percent, ledger);
}

/// The two parts of a fee make up the whole fee, which is the amount times the percent
/// over the denominator, rounded down: for every input on which there is a split.
pub proof fn lemma_fee_parts_sum_to_total(amount_in: u64, fee_percent: u64, share_percent: u64)
    requires
        fee_split_of(amount_in, fee_percent, share_percent) is Ok,
    ensures
        ({
            let split = fee_split_of(amount_in, fee_percent, share_percent)->Ok_0;
            &&& split.total_fee == amount_in * fee_percent / (FEE_DENOM as int)
            &&& split.protocol_fee + split.integrator_fee == split.total_fee
        }),
{
}

/// With both percents at most the denominator there is always a split, its parts make
/// up the whole fee, and the whole fee is at most the amount.
pub proof fn lemma_fee_within_amount(amount_in: u64, fee_percent: u64, share_percent: u64)
    requires
        fee_percent <= FEE_DENOM,
        share_percent <= FEE_DENOM,
    ensures
        fee_split_of(amount_in, fee_percent, share_percent) matches Ok(split) && {
            &&& split.protocol_fee + split.integrator_fee == amount_in * fee_percent / (FEE_DENOM as int)
            &&& split.protocol_fee <= split.protocol_fee + split.integrator_fee <= amount_in
        },
{
    let total = total_fee(amount_in as int, fee_percent as int);
    assert(0 <= total <= amount_in) by (nonlinear_arith)
        requires
            total == amount_in * fee_percent / 10000,
            0 <= fee_percent <= 10000,
            0 <= amount_in,
    ;
    if share_percent > 0 {
        let protocol = total * share_percent / 10000;
        assert(0 <= protocol <= total) by (nonlinear_arith)
            requires
                protocol == total * share_percent / 10000,
                0 <= share_percent <= 10000,
                0 <= total,
        ;
    }
}

/// A ledger that can pay a fee carries the fee plan out. Take three different token
/// accounts of one mint, the paying one owned by the user and holding the whole fee at
/// least, in tokens and, where the mint is the wrapped one, in native balance too, and
/// neither of the other two so full that its part would not fit. Then no action of the
/// plan is refused.
pub proof fn lemma_fee_is_carried_out(
    accounts: AccountsForFee,
    in_amount: u64,
    fee_percent: u64,
    share_percent: u64,
    ledger: Ledger,
)
    requires
        fee_split_of(in_amount, fee_percent, share_percent) is Ok,
        accounts.user_token_account.key != accounts.unizen_token_account.key,
        accounts.user_token_account.key != accounts.integrator_token_account.key,
        accounts.unizen_token_account.key != accounts.integrator_token_account.key,
        ledger.held(accounts.user_token_account.key) is Some,
        ledger.held(accounts.unizen_token_account.key) is Some,
        ledger.held(accounts.integrator_token_account.key) is Some,
        ({
            let split = fee_split_of(in_amount, fee_percent, share_percent)->Ok_0;
            let payer = ledger.held(accounts.user_token_account.key)->Some_0;
            let unizen = ledger.held(accounts.unizen_token_account.key)->Some_0;
            let integrator = ledger.held(accounts.integrator_token_account.key)->Some_0;
            &&& payer.owner == accounts.user
            &&& payer.mint == unizen.mint
            &&& payer.mint == integrator.mint
            &&& payer.amount >= split.total_fee
            &&& is_native(payer.mint) ==> ledger.balance(accounts.user_token_account.key) >= split.total_fee
            &&& unizen.amount + split.protocol_fee <= u64::MAX
            &&& integrator.amount + split.integrator_fee <= u64::MAX
        }),
    ensures
        fee_plan(accounts, in_amount, fee_percent, share_percent) matches Ok(plan) && ledger.run(plan) is Some,
{
    lemma_fee_plan_runs(accounts, in_amount, fee_percent, share_percent, ledger);
}

/// Taking a fee debits the payer by the whole fee, no more and no less: where the fee
/// is above zero percent, the payer's account is not one of the two that are paid, and
/// the ledger has carried the plan out. Where the two paid accounts differ, each has
/// gained its part.
pub proof fn lemma_fee_debits_payer(
    accounts: AccountsForFee,
    in_amount: u64,
    fee_percent: u64,
    share_percent: u64,
    ledger: Ledger,
)
    requires
        fee_percent > 0,
        accounts.user_token_account.key != accounts.unizen_token_account.key,
        accounts.user_token_account.key != accounts.integrator_token_account.key,
        fee_plan(accounts, in_amount, fee_percent, share_percent) is Ok,
        ledger.run(fee_plan(accounts, in_amount, fee_percent, share_percent)->Ok_0) is Some,
    ensures
        ({
            let after = ledger.run(fee_plan(accounts, in_amount, fee_percent, share_percent)->Ok_0)->Some_0;
            let split = fee_split_of(in_amount, fee_percent, share_percent)->Ok_0;
            let payer = accounts.user_token_account.key;
            let unizen = accounts.unizen_token_account.key;
            let integrator = accounts.integrator_token_account.key;
            &&& fee_split_of(in_amount, fee_percent, share_percent) is Ok
            &&& ledger.held(payer) is Some
            &&& after.held(payer) is Some
            &&& after.held(payer)->Some_0.amount == ledger.held(payer)->Some_0.amount - split.total_fee
            &&& unizen != integrator ==> {
                &&& after.held(integrator) is Some
                &&& ledger.held(integrator) is Some
                &&& after.held(integrator)->Some_0.amount == ledger.held(integrator)->Some_0.amount
                    + split.integrator_fee
                &&& share_percent > 0 ==> {
                    &&& after.held(unizen) is Some
                    &&& ledger.held(unizen) is Some
                    &&& after.held(unizen)->Some_0.amount == ledger.held(unizen)->Some_0.amount + split.protocol_fee
                }
            }
        }),
{
    lemma_fee_plan_runs(accounts, in_amount, fee_percent, share_percent, ledger);
}

/// The ledger once an opening has been carried out: as it was where the escrow was open
/// already, else after the creation.
pub open spec fn after_opening(ledger: Ledger, opening: EscrowOpeningView) -> Option<Ledger> {
    match opening {
        EscrowOpeningView::Open { account } => Some(ledger),
        EscrowOpeningView::Create { actions } => ledger.run(actions),
    }
}

/// Opening the escrow twice is opening it once. Take a ledger on which the escrow's
/// place is empty or holds a token account, an opening decided from what it holds that
/// does not fail, and the ledger once that opening is carried out. A second opening,
/// decided from what the ledger then holds, finds the escrow open and owned by the
/// program authority, fails in no way and asks nothing of the ledger: the ledger stays
/// as the first opening left it.
pub proof fn lemma_opening_is_idempotent(
    ledger: Ledger,
    program_authority: Address,
    program_wsol: Address,
    sol_mint: Address,
    token_program: Address,
    system_program: Address,
    rent_exempt_minimum: u64,
    authority_bump: Seq<u8>,
    wsol_bump: Seq<u8>,
)
    requires
        ledger.held(program_wsol) is None ==> !ledger.allocated(program_wsol),
        ({
            let first = escrow_opening(
                ledger.held(program_wsol),
                program_authority,
                program_wsol,
                sol_mint,
                token_program,
                system_program,
                rent_exempt_minimum,
                authority_bump,
                wsol_bump,
            );
            first is Ok && after_opening(ledger, first->Ok_0) is Some
        }),
    ensures
        ({
            let first = escrow_opening(
                ledger.held(program_wsol),
                program_authority,
                program_wsol,
                sol_mint,
                token_program,
                system_program,
                rent_exempt_minimum,
                authority_bump,
                wsol_bump,
            )->Ok_0;
            let opened = after_opening(ledger, first)->Some_0;
            let second = escrow_opening(
                opened.held(program_wsol),
                program_authority,
                program_wsol,
                sol_mint,
                token_program,
                system_program,
                rent_exempt_minimum,
                authority_bump,
                wsol_bump,
            );
            &&& opened.held(program_wsol) is Some
            &&& opened.held(program_wsol)->Some_0.owner == program_authority
            &&& second == Ok::<_, ErrorCode>(EscrowOpeningView::Open { account: opened.held(program_wsol)->Some_0 })
            &&& after_opening(opened, second->Ok_0) == Some(opened)
        }),
{
    if ledger.held(program_wsol) is None {
        let creation = escrow_creation(
            program_authority,
            program_wsol,
            sol_mint,
            token_program,
            system_program,
            rent_exempt_minimum,
            authority_bump,
            wsol_bump,
        );
        lemma_run_two(ledger, creation);
    }
}

/// Opening the escrow and closing it again, with nothing paid in between, gives the
/// receiver exactly nothing and leaves no storage behind. Take a ledger on which the
/// escrow's place is empty and holds no balance, and a program authority, at another
/// address, that can pay the balance that keeps a token account alive. The ledger then
/// carries the creation out; the closing planned from the escrow's balance as it then
/// stands is carried out too; and after it the receiver, whoever that is, and the
/// program authority hold what they held at the start, and the escrow's place is empty.
pub proof fn lemma_open_then_close_is_neutral(
    ledger: Ledger,
    program_authority: Address,
    program_wsol: Address,
    receiver: Address,
    sol_mint: Address,
    token_program: Address,
    system_program: Address,
    rent_exempt_minimum: u64,
    authority_bump: Seq<u8>,
    wsol_bump: Seq<u8>,
)
    requires
        program_authority != program_wsol,
        !ledger.allocated(program_wsol),
        ledger.balance(program_wsol) == 0,
        ledger.balance(program_authority) >= rent_exempt_minimum,
        ledger.rent_exempt_minimum == rent_exempt_minimum,
    ensures
        ({
            let creation = escrow_creation(
                program_authority,
                program_wsol,
                sol_mint,
                token_program,
                system_program,
                rent_exempt_minimum,
                authority_bump,
                wsol_bump,
            );
            let opened = ledger.run(creation)->Some_0;
            let closing = escrow_closing(
                program_authority,
                program_wsol,
                opened.balance(program_wsol) as u64,
                receiver,
                token_program,
                system_program,
                rent_exempt_minimum,
                authority_bump,
            );
            let closed = opened.run(closing->Ok_0)->Some_0;
            &&& ledger.run(creation) is Some
            &&& opened.held(program_wsol) is Some
            &&& opened.balance(program_wsol) == rent_exempt_minimum
            &&& closing is Ok
            &&& opened.run(closing->Ok_0) is Some
            &&& closed.balance(receiver) == ledger.balance(receiver)
            &&& closed.balance(program_authority) == ledger.balance(program_authority)
            &&& !closed.allocated(program_wsol)
        }),
{
    let creation = escrow_creation(
        program_authority,
        program_wsol,
        sol_mint,
        token_program,
        system_program,
        rent_exempt_minimum,
        authority_bump,
        wsol_bump,
    );
    lemma_run_two(ledger, creation);
    let opened = ledger.run(creation)->Some_0;
    assert(opened.balance(program_wsol) == rent_exempt_minimum);
    let closing = escrow_closing(
        program_authority,
        program_wsol,
        rent_exempt_minimum,
        receiver,
        token_program,
        system_program,
        rent_exempt_minimum,
        authority_bump,
    )->Ok_0;
    lemma_run_two(opened, closing);
}

/// Closing the escrow gives the receiver exactly what the escrow held above its
/// reserve, gives the program authority the reserve, and leaves no storage behind. Take
/// a ledger on which the escrow is a token account of the program authority, wrapped or
/// empty of tokens, that holds its reserve at least, and a receiver who is neither the
/// program authority nor the escrow. The closing planned from the escrow's balance as
/// it stands is then carried out, with that outcome.
pub proof fn lemma_closing_sweeps_the_surplus(
    ledger: Ledger,
    program_authority: Address,
    program_wsol: Address,
    receiver: Address,
    token_program: Address,
    system_program: Address,
    rent_exempt_minimum: u64,
    authority_bump: Seq<u8>,
)
    requires
        program_authority != program_wsol,
        receiver != program_authority,
        receiver != program_wsol,
        ledger.held(program_wsol) is Some,
        ledger.held(program_wsol)->Some_0.owner == program_authority,
        is_native(ledger.held(program_wsol)->Some_0.mint) || ledger.held(program_wsol)->Some_0.amount == 0,
        rent_exempt_minimum <= ledger.balance(program_wsol) <= u64::MAX,
    ensures
        ({
            let closing = escrow_closing(
                program_authority,
                program_wsol,
                ledger.balance(program_wsol) as u64,
                receiver,
                token_program,
                system_program,
                rent_exempt_minimum,
                authority_bump,
            );
            let closed = ledger.run(closing->Ok_0)->Some_0;
            &&& closing is Ok
            &&& ledger.run(closing->Ok_0) is Some
            &&& closed.balance(receiver) == ledger.balance(receiver) + ledger.balance(program_wsol)
                - rent_exempt_minimum
            &&& closed.balance(program_authority) == ledger.balance(program_authority) + rent_exempt_minimum
            &&& closed.balance(program_wsol) == 0
            &&& !closed.allocated(program_wsol)
        }),
{
    let closing = escrow_closing(
        program_authority,
        program_wsol,
        ledger.balance(program_wsol) as u64,
        receiver,
        token_program,
        system_program,
        rent_exempt_minimum,
        authority_bump,
    )->Ok_0;
    lemma_run_two(ledger, closing);
}

/// Wrapping credits the wrapped account with exactly the amount, in native balance and
/// in tokens. Take a ledger on which the user holds the amount and the receiving
/// account is a wrapped account whose tokens are what it holds above its reserve. The
/// plan is then carried out, and after it the account holds `amount` more of both; the
/// user, unless the account is at the user's own address, holds `amount` less.
pub proof fn lemma_wrapping_credits_the_amount(
    ledger: Ledger,
    system_program: Address,
    token_program: Address,
    user: Address,
    wsol_receive_account: Address,
    amount: u64,
)
    requires
        ledger.balance(user) >= amount,
        ledger.held(wsol_receive_account) is Some,
        is_native(ledger.held(wsol_receive_account)->Some_0.mint),
        ledger.balance(wsol_receive_account) == ledger.rent_exempt_minimum + ledger.held(
            wsol_receive_account,
        )->Some_0.amount,
        ledger.held(wsol_receive_account)->Some_0.amount + amount <= u64::MAX,
        user != wsol_receive_account,
    ensures
        ({
            let plan = wrap_plan(system_program, token_program, user, wsol_receive_account, amount);
            let wrapped = ledger.run(plan)->Some_0;
            &&& ledger.run(plan) is Some
            &&& wrapped.balance(user) == ledger.balance(user) - amount
            &&& wrapped.balance(wsol_receive_account) == ledger.balance(wsol_receive_account) + amount
            &&& wrapped.held(wsol_receive_account) == Some(
                TokenAccount {
                    amount: (ledger.held(wsol_receive_account)->Some_0.amount + amount) as u64,
                    ..ledger.held(wsol_receive_account)->Some_0
                },
            )
        }),
{
    let plan = wrap_plan(system_program, token_program, user, wsol_receive_account, amount);
    lemma_run_two(ledger, plan);
}

/// The floor check passes exactly when the balance has grown by the minimum at least.
/// A balance that fell never passes, whatever the minimum.
pub proof fn lemma_floor_passes_only_on_growth(prev_bal: u64, post_bal: u64, threshold: u64)
    ensures
        amount_out_verdict(prev_bal, post_bal, threshold) is Ok <==> post_bal >= prev_bal + threshold,
        post_bal < prev_bal ==> amount_out_verdict(prev_bal, post_bal, threshold) == Err::<(), _>(ErrorCode::Underflow),
{
}

/// Whether a step keeps to the order of the stages: a swap that is not done moves to a
/// later stage, and a swap that is done stays done and asks nothing more.
pub open spec fn moves_forward(state: FlowState, step: StepView) -> bool {
    if state is Done {
        step.next is Done && step.actions.len() == 0
    } else {
        step.next.rank() > state.rank()
    }
}

/// Whether a step has reached `Verified` only by passing the floor: it came from a
/// state that remembers the balance before the engine ran, and `balance_now` is above
/// that balance by `amount_out_min` at least.
pub open spec fn verified_above_floor(state: FlowState, step: StepView, balance_now: u64, amount_out_min: u64) -> bool {
    step.next is Verified ==> match state {
        FlowState::Delegated { balance_before } | FlowState::EscrowClosed { balance_before } => balance_now
            >= balance_before + amount_out_min,
        _ => false,
    }
}

/// Whether a step that hands the swap to the engine measures from now: the balance it
/// remembers as the one before is `balance_now`, what was read just before the step.
pub open spec fn measures_from_now(step: StepView, balance_now: u64) -> bool {
    step.next matches FlowState::Delegated { balance_before } ==> balance_before == balance_now
}

/// A swap of tokens for tokens keeps to the order of its stages, from any state and
/// whatever is read, measures the floor from what the destination holds just before
/// the engine runs, and is verified only above the floor.
pub proof fn lemma_tokens_for_tokens_in_order(
    ctx: SwapTokensForTokens,
    state: FlowState,
    destination_amount: u64,
    amount_in: u64,
    amount_out_min: u64,
    fee_percent: u64,
    share_percent: u64,
    data: Seq<u8>,
)
    ensures
        tokens_for_tokens_step(
            ctx,
            state,
            destination_amount,
            amount_in,
            amount_out_min,
            fee_percent,
            share_percent,
            data,
        ) matches Ok(step) ==> {
            &&& moves_forward(state, step)
            &&& measures_from_now(step, destination_amount)
            &&& verified_above_floor(state, step, destination_amount, amount_out_min)
        },
{
}

/// A swap of native balance for tokens keeps to the order of its stages, from any state
/// and whatever is read, measures the floor from what the destination holds just before
/// the engine runs, and is verified only above the floor.
pub proof fn lemma_sol_for_tokens_in_order(
    ctx: SwapSolForTokens,
    state: FlowState,
    destination_amount: u64,
    amount_in: u64,
    amount_out_min: u64,
    fee_percent: u64,
    share_percent: u64,
    data: Seq<u8>,
)
    ensures
        sol_for_tokens_step(
            ctx,
            state,
            destination_amount,
            amount_in,
            amount_out_min,
            fee_percent,
            share_percent,
            data,
        ) matches Ok(step) ==> {
            &&& moves_forward(state, step)
            &&& measures_from_now(step, destination_amount)
            &&& verified_above_floor(state, step, destination_amount, amount_out_min)
        },
{
}

/// A swap of tokens for native balance keeps to the order of its stages, from any state
/// and whatever is read, measures the floor from what the receiver holds just before the
/// engine runs, and is verified only above the floor. It hands the swap to the
/// engine only from `EscrowReady`, and closes the escrow only from `Delegated`.
pub proof fn lemma_tokens_for_sol_in_order(
    ctx: SwapTokensForSol,
    state: FlowState,
    reading: LedgerReading,
    amount_in: u64,
    amount_out_min: u64,
    fee_percent: u64,
    share_percent: u64,
    data: Seq<u8>,
)
    ensures
        tokens_for_sol_step(
            ctx,
            state,
            reading,
            amount_in,
            amount_out_min,
            fee_percent,
            share_percent,
            data,
        ) matches Ok(step) ==> {
            &&& moves_forward(state, step)
            &&& measures_from_now(step, reading.receiver_lamports)
            &&& verified_above_floor(state, step, reading.receiver_lamports, amount_out_min)
            &&& step.next is Delegated ==> state is EscrowReady
            &&& step.next is EscrowClosed ==> state is Delegated
        },
{
}

/// The floor of a swap that ends in a token account spans the engine's run and nothing
/// else. Let the destination hold `before` when the swap is handed to the engine and
/// `after` once the engine has run. With the fee taken, the swap of tokens for tokens
/// and the swap of native balance for tokens both hand the swap over, whatever `before`
/// is; the step that follows is then what the floor check says of `before`, `after`
/// and the minimum: what the wrap or the fee paid into the destination earlier does
/// not count.
pub proof fn lemma_token_floor_spans_the_engine_run(
    tokens: SwapTokensForTokens,
    native: SwapSolForTokens,
    before: u64,
    after: u64,
    amount_in: u64,
    amount_out_min: u64,
    fee_percent: u64,
    share_percent: u64,
    data: Seq<u8>,
)
    ensures
        ({
            let handed = tokens_for_tokens_step(
                tokens,
                FlowState::FeeTaken,
                before,
                amount_in,
                amount_out_min,
                fee_percent,
                share_percent,
                data,
            );
            let checked = tokens_for_tokens_step(
                tokens,
                handed->Ok_0.next,
                after,
                amount_in,
                amount_out_min,
                fee_percent,
                share_percent,
                data,
            );
            &&& handed is Ok
            &&& handed->Ok_0.next == FlowState::Delegated { balance_before: before }
            &&& checked is Ok <==> after >= before + amount_out_min
            &&& checked matches Ok(step) ==> step.next is Verified
            &&& checked matches Err(e) ==> Err::<(), ErrorCode>(e) == amount_out_verdict(before, after, amount_out_min)
        }),
        ({
            let handed = sol_for_tokens_step(
                native,
                FlowState::FeeTaken,
                before,
                amount_in,
                amount_out_min,
                fee_percent,
                share_percent,
                data,
            );
            let checked = sol_for_tokens_step(
                native,
                handed->Ok_0.next,
                after,
                amount_in,
                amount_out_min,
                fee_percent,
                share_percent,
                data,
            );
            &&& handed is Ok
            &&& handed->Ok_0.next == FlowState::Delegated { balance_before: before }
            &&& checked is Ok <==> after >= before + amount_out_min
            &&& checked matches Ok(step) ==> step.next is Verified
            &&& checked matches Err(e) ==> Err::<(), ErrorCode>(e) == amount_out_verdict(before, after, amount_out_min)
        }),
{
}

} // verus!
