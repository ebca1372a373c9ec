use vstd::prelude::*;
use crate::actions::{Action, ActionView};
use crate::errors::ErrorCode;

verus! {

/// How far a swap has come. A state names what has been carried out on the ledger.
#[derive(Clone, Copy, Debug, PartialEq, Eq, Structural)]
pub enum FlowState {
    /// Nothing has happened yet.
    Start,
    /// The fee has been moved.
    FeeTaken,
    /// The program's escrow has been opened.
    EscrowReady,
    /// The swap engine has run; the watched balance stood at `balance_before` just before.
    Delegated { balance_before: u64 },
    /// The program's escrow has been closed and swept to the receiver.
    EscrowClosed { balance_before: u64 },
    /// The watched balance has grown by the requested minimum at least.
    Verified,
    /// The swap is complete.
    Done,
}

impl FlowState {
    /// How many stages lie behind a state.
    pub open spec fn rank(self) -> nat {
        match self {
            FlowState::Start => 0,
            FlowState::FeeTaken => 1,
            FlowState::EscrowReady => 2,
            FlowState::Delegated { balance_before } => 3,
            FlowState::EscrowClosed { balance_before } => 4,
            FlowState::Verified => 5,
            FlowState::Done => 6,
        }
    }
}

/// One move of a swap: what the host carries out next, in order, and the state the
/// swap is in once every action has succeeded.
#[derive(Clone, Debug, PartialEq, Eq)]
pub struct Step {
    pub next: FlowState,
    pub actions: Vec<Action>,
}

/// A step as contracts speak of it.
pub struct StepView {
    pub next: FlowState,
    pub actions: Seq<ActionView>,
}

impl DeepView for Step {
    type V = StepView;

    open spec fn deep_view(&self) -> StepView {
        StepView { next: self.next, actions: self.actions.deep_view() }
    }
}

/// Whether a computed step is the expected one: the same failure, or the same state
/// and actions.
pub open spec fn step_matches(res: Result<Step, ErrorCode>, expected: Result<StepView, ErrorCode>) -> bool {
    match expected {
        Ok(step) => res is Ok && res->Ok_0.deep_view() == step,
        Err(e) => res == Err::<Step, ErrorCode>(e),
    }
}

/// A step that asks nothing of the ledger.
pub open spec fn idle(next: FlowState) -> StepView {
    StepView { next, actions: Seq::empty() }
}

/// A step that follows a plan, or the plan's failure.
pub open spec fn after(plan: Result<Seq<ActionView>, ErrorCode>, next: FlowState) -> Result<StepView, ErrorCode> {
    match plan {
        Ok(actions) => Ok(StepView { next, actions }),
        Err(e) => Err(e),
    }
}

pub(crate) fn rest(next: FlowState) -> (step: Step)
    ensures
        step.deep_view() == idle(next),
{
    let step = Step { next, actions: Vec::new() };
    assert(step.actions.deep_view() =~= Seq::<ActionView>::empty());
    step
}

/// Appends `tail` to `plan`.
pub(crate) fn extend(plan: &mut Vec<Action>, tail: Vec<Action>)
    ensures
        final(plan).deep_view() == old(plan).deep_view() + tail.deep_view(),
{
    let mut tail = tail;
    let ghost before = plan.deep_view();
    let ghost added = tail.deep_view();
    plan.append(&mut tail);
    assert(plan.deep_view() =~= before + added);
}

} // verus!
