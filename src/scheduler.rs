//! Scheduling of simulation work: compute-pipeline readiness, the per-frame state
//! machine that runs at most one step per physics tick, and the lifecycle of each
//! fluid domain.
use vstd::prelude::*;
use crate::grid::GridSize;
use crate::plan::{initialize_plan, step_plan, initialize_plan_spec, step_plan_with, Dispatch};
use crate::reinit::{is_jump_flooding_schedule, max_dim};

verus! {

/// Compilation state of one compute pipeline, as reported by the pipeline cache.
#[derive(Clone, Copy, Debug, PartialEq, Eq, Structural)]
pub enum PipelineState {
    /// Waiting to be compiled.
    Queued,
    /// Being compiled.
    Creating,
    /// Compiled and usable.
    Ready,
    /// Its shader source has not finished loading; compilation will be retried.
    ShaderNotLoaded,
    /// Compilation failed for any other reason; this is permanent.
    Failed,
}

/// A pipeline that can never become usable: the domain cannot be simulated.
#[derive(Clone, Copy, Debug, PartialEq, Eq, Structural)]
pub struct PipelineFailure {
    /// Position of the first failed pipeline in the list that was checked.
    pub index: usize,
}

/// Whether one pipeline is usable now, or the failure that makes it unusable for good.
pub fn is_pipeline_loaded(state: PipelineState) -> (r: Result<bool, ()>)
    ensures
        state == PipelineState::Failed <==> r is Err,
        r == Ok::<bool, ()>(true) <==> state == PipelineState::Ready,
{
    match state {
        PipelineState::Ready => Ok(true),
        PipelineState::Failed => Err(()),
        _ => Ok(false),
    }
}

/// Whether every pipeline of `states` is ready. Any permanently failed pipeline is
/// reported, the first one by position, even while others are still compiling.
pub fn pipelines_ready(states: &Vec<PipelineState>) -> (r: Result<bool, PipelineFailure>)
    ensures
        (exists|i: int| 0 <= i < states@.len() && states@[i] == PipelineState::Failed)
            <==> r is Err,
        r is Err ==> {
            let i = r->Err_0.index as int;
            &&& 0 <= i < states@.len()
            &&& states@[i] == PipelineState::Failed
            &&& forall|j: int| 0 <= j < i ==> states@[j] != PipelineState::Failed
        },
        r is Ok ==> (r->Ok_0 <==> forall|i: int| 0 <= i < states@.len() ==> states@[i] == PipelineState::Ready),
{
    let mut all_ready = true;
    let mut i: usize = 0;
    while i < states.len()
        invariant
            i <= states@.len(),
            forall|j: int| 0 <= j < i ==> states@[j] != PipelineState::Failed,
            all_ready <==> forall|j: int| 0 <= j < i ==> states@[j] == PipelineState::Ready,
        decreases states@.len() - i,
    {
        match is_pipeline_loaded(states[i]) {
            Err(()) => {
                return Err(PipelineFailure { index: i });
            },
            Ok(ready) => {
                all_ready = all_ready && ready;
            },
        }
        i = i + 1;
    }
    Ok(all_ready)
}

/// Phase of the per-frame scheduler.
#[derive(Clone, Copy, Debug, PartialEq, Eq, Structural)]
pub enum NodeState {
    /// Waiting for every pipeline to compile; nothing is dispatched.
    Loading,
    /// Pipelines are ready; entered once, left on the next frame.
    Init,
    /// A new physics tick was observed: simulation work is dispatched this frame.
    Update,
    /// No new physics tick since the last update: nothing is dispatched.
    Idle,
}

/// The per-frame scheduler: its phase and the last physics tick it simulated.
#[derive(Clone, Copy, Debug, PartialEq, Eq, Structural)]
pub struct StepScheduler {
    pub state: NodeState,
    pub current_step: u64,
}

/// The scheduler after one frame in which the pipelines were `ready` (or not) and the
/// physics clock stood at `physics_step`.
pub open spec fn scheduler_next(s: StepScheduler, ready: bool, physics_step: u64) -> StepScheduler {
    match s.state {
        NodeState::Loading => if ready {
            StepScheduler { state: NodeState::Init, ..s }
        } else {
            s
        },
        NodeState::Init => StepScheduler { state: NodeState::Update, ..s },
        _ => if s.current_step == physics_step {
            StepScheduler { state: NodeState::Idle, ..s }
        } else {
            StepScheduler { state: NodeState::Update, current_step: physics_step }
        },
    }
}

impl StepScheduler {
    /// A scheduler that waits for the pipelines; no tick has been simulated.
    pub fn new() -> (r: StepScheduler)
        ensures
            r.state == NodeState::Loading,
            r.current_step == 0,
    {
        StepScheduler { state: NodeState::Loading, current_step: 0 }
    }

    /// Advances the scheduler by one frame.
    pub fn update(&mut self, pipelines_ready: bool, physics_step: u64)
        ensures
            *final(self) == scheduler_next(*old(self), pipelines_ready, physics_step),
    {
        match self.state {
            NodeState::Loading => {
                if pipelines_ready {
                    self.state = NodeState::Init;
                }
            },
            NodeState::Init => {
                self.state = NodeState::Update;
            },
            NodeState::Update | NodeState::Idle => {
                if self.current_step == physics_step {
                    self.state = NodeState::Idle;
                } else {
                    self.current_step = physics_step;
                    self.state = NodeState::Update;
                }
            },
        }
    }

    /// Whether simulation work is dispatched in the current frame.
    pub fn dispatches(&self) -> (r: bool)
        ensures
            r == (self.state == NodeState::Update),
    {
        match self.state {
            NodeState::Update => true,
            _ => false,
        }
    }
}

/// Once running, two frames that see the same physics tick dispatch work at most once:
/// the second of them is idle.
pub proof fn lemma_tick_simulated_at_most_once(s: StepScheduler, physics_step: u64, r1: bool, r2: bool)
    requires
        s.state == NodeState::Update || s.state == NodeState::Idle,
    ensures
        scheduler_next(scheduler_next(s, r1, physics_step), r2, physics_step).state
            == NodeState::Idle,
        scheduler_next(s, r1, physics_step).current_step == physics_step,
{
}

/// Once running, a frame that sees a tick other than the last simulated one always
/// dispatches, so no tick is skipped while the scheduler is polled once per tick.
pub proof fn lemma_new_tick_simulated(s: StepScheduler, physics_step: u64, ready: bool)
    requires
        s.state == NodeState::Update || s.state == NodeState::Idle,
        s.current_step != physics_step,
    ensures
        scheduler_next(s, ready, physics_step).state == NodeState::Update,
        scheduler_next(s, ready, physics_step).current_step == physics_step,
{
}


/// Lifecycle of one fluid domain.
#[derive(Clone, Copy, Debug, PartialEq, Eq, Structural)]
pub enum FluidStatus {
    /// Requested to start over from the initial state.
    Reset,
    /// Waiting for its initial state to be written.
    Uninitialized,
    /// Initial state written; the domain is stepped once per tick.
    Initialized,
}

impl Default for FluidStatus {
    fn default() -> (r: FluidStatus)
        ensures
            r == FluidStatus::Reset,
    {
        FluidStatus::Reset
    }
}

/// What is dispatched for one domain in one frame.
#[derive(Clone, Copy, Debug, PartialEq, Eq, Structural)]
pub enum DomainWork {
    Nothing,
    /// Write the initial velocity and surface.
    Initialize,
    /// Advance the simulation by one step.
    Step,
}

/// The work for a domain in a frame of the given phase, and the domain's next status.
pub open spec fn domain_frame_spec(state: NodeState, status: FluidStatus) -> (DomainWork, FluidStatus) {
    match state {
        NodeState::Loading | NodeState::Init => (DomainWork::Nothing, status),
        NodeState::Update => match status {
            FluidStatus::Reset => (DomainWork::Nothing, FluidStatus::Uninitialized),
            FluidStatus::Uninitialized => (DomainWork::Initialize, FluidStatus::Initialized),
            FluidStatus::Initialized => (DomainWork::Step, FluidStatus::Initialized),
        },
        NodeState::Idle => match status {
            FluidStatus::Reset => (DomainWork::Nothing, FluidStatus::Uninitialized),
            _ => (DomainWork::Nothing, status),
        },
    }
}

/// Decides what one domain runs in a frame of phase `state` and how its status moves:
/// a reset domain becomes uninitialised, an uninitialised one is initialised on the next
/// dispatching frame, and an initialised one is stepped on every dispatching frame.
pub fn domain_frame(state: NodeState, status: FluidStatus) -> (r: (DomainWork, FluidStatus))
    ensures
        r == domain_frame_spec(state, status),
{
    match state {
        NodeState::Loading | NodeState::Init => (DomainWork::Nothing, status),
        NodeState::Update => match status {
            FluidStatus::Reset => (DomainWork::Nothing, FluidStatus::Uninitialized),
            FluidStatus::Uninitialized => (DomainWork::Initialize, FluidStatus::Initialized),
            FluidStatus::Initialized => (DomainWork::Step, FluidStatus::Initialized),
        },
        NodeState::Idle => match status {
            FluidStatus::Reset => (DomainWork::Nothing, FluidStatus::Uninitialized),
            _ => (DomainWork::Nothing, status),
        },
    }
}

/// A domain is stepped only once initialised, and becomes initialised only in a frame
/// that dispatches its initialisation.
pub proof fn lemma_initialized_before_stepped(state: NodeState, status: FluidStatus)
    ensures
        domain_frame_spec(state, status).0 == DomainWork::Step ==> status == FluidStatus::Initialized,
        domain_frame_spec(state, status).1 == FluidStatus::Initialized && status != FluidStatus::Initialized
            ==> domain_frame_spec(state, status).0 == DomainWork::Initialize,
        domain_frame_spec(state, status).0 != DomainWork::Nothing ==> state == NodeState::Update,
{
}

/// Hand-over of a domain's status from the host: a pending reset is passed on to the
/// simulation (`true`) and the host's copy becomes uninitialised; otherwise nothing moves.
pub fn extract_status(host: FluidStatus) -> (r: (FluidStatus, bool))
    ensures
        host == FluidStatus::Reset ==> r == (FluidStatus::Uninitialized, true),
        host != FluidStatus::Reset ==> r == (host, false),
{
    match host {
        FluidStatus::Reset => (FluidStatus::Uninitialized, true),
        _ => (host, false),
    }
}

/// The dispatches of one domain of `size` in a frame of phase `state`, and the domain's
/// next status.
pub fn frame_plan(state: NodeState, status: FluidStatus, size: GridSize) -> (r: (Vec<Dispatch>, FluidStatus))
    requires
        size.wf(),
    ensures
        r.1 == domain_frame_spec(state, status).1,
        domain_frame_spec(state, status).0 == DomainWork::Nothing ==> r.0@.len() == 0,
        domain_frame_spec(state, status).0 == DomainWork::Initialize ==> r.0@ == initialize_plan_spec(size),
        domain_frame_spec(state, status).0 == DomainWork::Step ==> exists|steps: Seq<u32>|
            is_jump_flooding_schedule(max_dim(size) as nat, steps) && r.0@ == step_plan_with(size, steps),
{
    let (work, next) = domain_frame(state, status);
    match work {
        DomainWork::Nothing => (Vec::new(), next),
        DomainWork::Initialize => (initialize_plan(size), next),
        DomainWork::Step => (step_plan(size), next),
    }
}

} // verus!
