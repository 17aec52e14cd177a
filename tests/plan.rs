use eulerian_fluid::grid::GridSize;
use eulerian_fluid::plan::{
    dispatch_center, dispatch_x_major, dispatch_y_major, initialize_plan, step_plan, Dispatch,
    Kernel, Workgroups,
};
use eulerian_fluid::reinit::jump_flooding_steps;

fn size(width: u32, height: u32) -> GridSize {
    GridSize { width, height }
}

fn groups(x: u32, y: u32, z: u32) -> Workgroups {
    Workgroups { x, y, z }
}

#[test]
fn workgroup_counts() {
    assert_eq!(dispatch_center(size(128, 64)), groups(16, 8, 1));
    assert_eq!(dispatch_x_major(size(128, 64)), groups(129, 1, 1));
    assert_eq!(dispatch_y_major(size(128, 64)), groups(2, 65, 1));
    assert_eq!(dispatch_center(size(100, 30)), groups(12, 3, 1));
}

#[test]
fn jump_flooding_steps_for_power_of_two() {
    assert_eq!(jump_flooding_steps(size(128, 128)), vec![64, 32, 16, 8, 4, 2, 1]);
}

#[test]
fn jump_flooding_steps_use_largest_dimension() {
    assert_eq!(jump_flooding_steps(size(512, 256)), vec![256, 128, 64, 32, 16, 8, 4, 2, 1]);
    assert_eq!(jump_flooding_steps(size(64, 100)), vec![64, 32, 16, 8, 4, 2, 1]);
    assert_eq!(jump_flooding_steps(size(129, 3)), vec![128, 64, 32, 16, 8, 4, 2, 1]);
}

#[test]
fn jump_flooding_steps_small_grids() {
    assert_eq!(jump_flooding_steps(size(1, 1)), Vec::<u32>::new());
    assert_eq!(jump_flooding_steps(size(0, 0)), Vec::<u32>::new());
    assert_eq!(jump_flooding_steps(size(2, 1)), vec![1]);
    assert_eq!(jump_flooding_steps(size(3, 2)), vec![2, 1]);
}

#[test]
fn jump_flooding_steps_largest_size() {
    let steps = jump_flooding_steps(size(u32::MAX, 1));
    assert_eq!(steps.len(), 32);
    assert_eq!(steps[0], 1 << 31);
    assert_eq!(*steps.last().unwrap(), 1);
}

#[test]
fn initialize_plan_order() {
    let plan = initialize_plan(size(128, 128));
    assert_eq!(
        plan,
        vec![
            Dispatch { kernel: Kernel::InitializeVelocity, groups: groups(129, 2, 1) },
            Dispatch { kernel: Kernel::InitializeGridCenter, groups: groups(16, 16, 1) },
        ]
    );
}

#[test]
fn step_plan_order() {
    let s = size(128, 128);
    let plan = step_plan(s);
    let kernels: Vec<Kernel> = plan.iter().map(|d| d.kernel).collect();
    // 7 leading passes, 50 forward/reverse pairs, 6 passes, 7 sweeps, 3 trailing passes
    assert_eq!(plan.len(), 7 + 100 + 6 + 7 + 3);
    assert_eq!(
        kernels[..7].to_vec(),
        vec![
            Kernel::UpdateSolid,
            Kernel::UpdateSolidPressure,
            Kernel::AdvectU,
            Kernel::AdvectV,
            Kernel::ApplyForcesU,
            Kernel::ApplyForcesV,
            Kernel::Divergence,
        ]
    );
    for pair in 0..50 {
        assert_eq!(kernels[7 + 2 * pair], Kernel::JacobiForward);
        assert_eq!(kernels[8 + 2 * pair], Kernel::JacobiReverse);
    }
    assert_eq!(
        kernels[107..113].to_vec(),
        vec![
            Kernel::SolveU,
            Kernel::SolveV,
            Kernel::ExtrapolateU,
            Kernel::ExtrapolateV,
            Kernel::AdvectLevelset,
            Kernel::InitializeSeeds,
        ]
    );
    let sweeps: Vec<Kernel> = [64, 32, 16, 8, 4, 2, 1]
        .iter()
        .map(|&step| Kernel::JumpFlood { step })
        .collect();
    assert_eq!(kernels[113..120].to_vec(), sweeps);
    assert_eq!(
        kernels[120..].to_vec(),
        vec![Kernel::CalculateSdf, Kernel::SampleForces, Kernel::AccumulateForces]
    );
    assert_eq!(plan[0].groups, groups(16, 16, 1));
    assert_eq!(plan[2].groups, groups(129, 2, 1));
    assert_eq!(plan[3].groups, groups(2, 129, 1));
    assert_eq!(plan[122].groups, groups(256, 1, 1));
}
