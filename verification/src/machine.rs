//! The pipeline-readiness state machine of the simulation orchestrator.
//!
//! The orchestrator starts in `Loading`, waiting for the agent compute
//! kernel to come out of compilation; a recoverable "not yet ready" answer
//! keeps it there, an unrecoverable compile failure aborts the run. Once
//! the agent kernel is ready it enters `Init` and waits for every remaining
//! kernel (diffusion, brush input, compositing); then it enters the frame
//! loop, alternating `Update(0)` and `Update(1)`. The update index selects
//! which physical field buffer is read and which is written this frame, so
//! the flip — never a copy — is what keeps the passes race-free.

use vstd::prelude::*;

verus! {

/// What a kernel readiness query reports.
#[derive(Clone, Copy, PartialEq, Eq, Structural, Debug)]
pub enum KernelStatus {
    /// Still compiling; retry next frame.
    Pending,
    /// Compiled and ready to dispatch.
    Ready,
    /// Unrecoverable compile failure.
    Failed,
}

/// The readiness of each compute kernel, as queried this frame.
#[derive(Clone, Copy, PartialEq, Eq, Structural, Debug)]
pub struct KernelReadiness {
    pub agent: KernelStatus,
    pub diffuse: KernelStatus,
    pub brush: KernelStatus,
    pub composite: KernelStatus,
}

/// The orchestrator state.
#[derive(Clone, Copy, PartialEq, Eq, Structural, Debug)]
pub enum SimState {
    /// Waiting for the agent kernel to finish compiling.
    Loading,
    /// Waiting for all kernels to report ready.
    Init,
    /// In the frame loop; the index (0 or 1) selects the buffer roles.
    Update(u8),
}

impl SimState {
    /// The update index stays binary.
    pub open spec fn wf(self) -> bool {
        match self {
            SimState::Update(i) => i == 0 || i == 1,
            _ => true,
        }
    }
}

/// The run has hit an unrecoverable kernel compile failure.
#[derive(Clone, Copy, PartialEq, Eq, Structural, Debug)]
pub struct FatalPipelineError;

/// The next state for a given current state and readiness report.
pub open spec fn advance_spec(s: SimState, r: KernelReadiness) -> Result<
    SimState,
    FatalPipelineError,
> {
    match s {
        SimState::Loading => match r.agent {
            KernelStatus::Ready => Result::Ok(SimState::Init),
            KernelStatus::Pending => Result::Ok(SimState::Loading),
            KernelStatus::Failed => Result::Err(FatalPipelineError),
        },
        SimState::Init => if r.diffuse == KernelStatus::Ready && r.brush == KernelStatus::Ready
            && r.composite == KernelStatus::Ready {
            Result::Ok(SimState::Update(0))
        } else {
            Result::Ok(SimState::Init)
        },
        SimState::Update(i) => Result::Ok(SimState::Update(if i == 0 { 1u8 } else { 0u8 })),
    }
}

/// Advance the state machine by one frame's readiness report.
///
/// In `Loading` only the agent kernel is looked at: ready moves on to
/// `Init`, a pending compilation stays, a failure is fatal. In `Init` the
/// remaining kernels must all be ready. In the frame loop the update index
/// flips every call, whatever the report says.
pub fn advance(s: SimState, r: KernelReadiness) -> (next: Result<SimState, FatalPipelineError>)
    requires
        s.wf(),
    ensures
        next == advance_spec(s, r),
        next matches Result::Ok(n) ==> n.wf(),
{
    match s {
        SimState::Loading => match r.agent {
            KernelStatus::Ready => Result::Ok(SimState::Init),
            KernelStatus::Pending => Result::Ok(SimState::Loading),
            KernelStatus::Failed => Result::Err(FatalPipelineError),
        },
        SimState::Init => {
            let all_ready = matches!(r.diffuse, KernelStatus::Ready) && matches!(
                r.brush,
                KernelStatus::Ready,
            ) && matches!(r.composite, KernelStatus::Ready);
            if all_ready {
                Result::Ok(SimState::Update(0))
            } else {
                Result::Ok(SimState::Init)
            }
        },
        SimState::Update(i) => Result::Ok(SimState::Update(if i == 0 { 1 } else { 0 })),
    }
}

/// A readiness report with every kernel ready.
pub open spec fn all_ready() -> KernelReadiness {
    KernelReadiness {
        agent: KernelStatus::Ready,
        diffuse: KernelStatus::Ready,
        brush: KernelStatus::Ready,
        composite: KernelStatus::Ready,
    }
}

/// Law: starting in `Loading` with the kernels reporting ready, the first
/// advance reaches `Init`, the second reaches `Update(0)`, and from there
/// the update index alternates strictly 0, 1, 0, 1, ...
pub proof fn lemma_state_progression(r: KernelReadiness)
    requires
        r == all_ready(),
    ensures
        advance_spec(SimState::Loading, r) == Result::<SimState, FatalPipelineError>::Ok(
            SimState::Init,
        ),
        advance_spec(SimState::Init, r) == Result::<SimState, FatalPipelineError>::Ok(
            SimState::Update(0),
        ),
        forall|r2: KernelReadiness| #![auto]
            advance_spec(SimState::Update(0), r2) == Result::<SimState, FatalPipelineError>::Ok(
                SimState::Update(1),
            ),
        forall|r2: KernelReadiness| #![auto]
            advance_spec(SimState::Update(1), r2) == Result::<SimState, FatalPipelineError>::Ok(
                SimState::Update(0),
            ),
{
}

/// Law: a pending compilation never moves the machine out of `Loading` or
/// `Init`, and never aborts the run.
pub proof fn lemma_pending_waits(r: KernelReadiness)
    requires
        r.agent == KernelStatus::Pending,
        r.diffuse == KernelStatus::Pending,
    ensures
        advance_spec(SimState::Loading, r) == Result::<SimState, FatalPipelineError>::Ok(
            SimState::Loading,
        ),
        advance_spec(SimState::Init, r) == Result::<SimState, FatalPipelineError>::Ok(
            SimState::Init,
        ),
{
}

} // verus!
