use eulerian_fluid::grid::GridSize;
use eulerian_fluid::scheduler::{
    domain_frame, extract_status, frame_plan, is_pipeline_loaded, pipelines_ready, DomainWork,
    FluidStatus, NodeState, PipelineFailure, PipelineState, StepScheduler,
};

#[test]
fn pipeline_loaded_by_state() {
    assert_eq!(is_pipeline_loaded(PipelineState::Ready), Ok(true));
    assert_eq!(is_pipeline_loaded(PipelineState::Queued), Ok(false));
    assert_eq!(is_pipeline_loaded(PipelineState::Creating), Ok(false));
    assert_eq!(is_pipeline_loaded(PipelineState::ShaderNotLoaded), Ok(false));
    assert_eq!(is_pipeline_loaded(PipelineState::Failed), Err(()));
}

#[test]
fn pipelines_ready_needs_all() {
    assert_eq!(pipelines_ready(&vec![]), Ok(true));
    assert_eq!(pipelines_ready(&vec![PipelineState::Ready, PipelineState::Ready]), Ok(true));
    assert_eq!(
        pipelines_ready(&vec![PipelineState::Ready, PipelineState::ShaderNotLoaded]),
        Ok(false)
    );
}

#[test]
fn pipelines_ready_reports_first_failure() {
    let states = vec![
        PipelineState::ShaderNotLoaded,
        PipelineState::Ready,
        PipelineState::Failed,
        PipelineState::Failed,
    ];
    assert_eq!(pipelines_ready(&states), Err(PipelineFailure { index: 2 }));
}

#[test]
fn scheduler_waits_for_pipelines() {
    let mut s = StepScheduler::new();
    assert_eq!(s.state, NodeState::Loading);
    s.update(false, 5);
    assert_eq!(s.state, NodeState::Loading);
    assert!(!s.dispatches());
    s.update(true, 5);
    assert_eq!(s.state, NodeState::Init);
    s.update(false, 5);
    assert_eq!(s.state, NodeState::Update);
    assert_eq!(s.current_step, 0);
}

#[test]
fn scheduler_runs_once_per_tick() {
    let mut s = StepScheduler { state: NodeState::Update, current_step: 3 };
    s.update(true, 4);
    assert_eq!(s, StepScheduler { state: NodeState::Update, current_step: 4 });
    assert!(s.dispatches());
    s.update(true, 4);
    assert_eq!(s, StepScheduler { state: NodeState::Idle, current_step: 4 });
    assert!(!s.dispatches());
    s.update(true, 4);
    assert_eq!(s.state, NodeState::Idle);
    s.update(true, 5);
    assert_eq!(s, StepScheduler { state: NodeState::Update, current_step: 5 });
}

#[test]
fn domain_lifecycle() {
    assert_eq!(FluidStatus::default(), FluidStatus::Reset);
    assert_eq!(
        domain_frame(NodeState::Update, FluidStatus::Reset),
        (DomainWork::Nothing, FluidStatus::Uninitialized)
    );
    assert_eq!(
        domain_frame(NodeState::Update, FluidStatus::Uninitialized),
        (DomainWork::Initialize, FluidStatus::Initialized)
    );
    assert_eq!(
        domain_frame(NodeState::Update, FluidStatus::Initialized),
        (DomainWork::Step, FluidStatus::Initialized)
    );
    assert_eq!(
        domain_frame(NodeState::Idle, FluidStatus::Uninitialized),
        (DomainWork::Nothing, FluidStatus::Uninitialized)
    );
    assert_eq!(
        domain_frame(NodeState::Idle, FluidStatus::Reset),
        (DomainWork::Nothing, FluidStatus::Uninitialized)
    );
    assert_eq!(
        domain_frame(NodeState::Loading, FluidStatus::Reset),
        (DomainWork::Nothing, FluidStatus::Reset)
    );
}

#[test]
fn host_status_extraction() {
    assert_eq!(extract_status(FluidStatus::Reset), (FluidStatus::Uninitialized, true));
    assert_eq!(extract_status(FluidStatus::Uninitialized), (FluidStatus::Uninitialized, false));
    assert_eq!(extract_status(FluidStatus::Initialized), (FluidStatus::Initialized, false));
}

#[test]
fn frame_plan_follows_domain_work() {
    let size = GridSize { width: 64, height: 64 };
    let (plan, next) = frame_plan(NodeState::Update, FluidStatus::Uninitialized, size);
    assert_eq!(plan.len(), 2);
    assert_eq!(next, FluidStatus::Initialized);
    let (plan, next) = frame_plan(NodeState::Update, FluidStatus::Initialized, size);
    assert_eq!(plan.len(), 7 + 100 + 6 + 6 + 3);
    assert_eq!(next, FluidStatus::Initialized);
    let (plan, _) = frame_plan(NodeState::Idle, FluidStatus::Initialized, size);
    assert!(plan.is_empty());
}
