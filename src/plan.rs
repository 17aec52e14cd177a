//! Compute-kernel dispatches: how many workgroups each kind of pass needs, and the
//! ordered list of passes that initialises a domain or advances it by one step.
use vstd::prelude::*;
use crate::grid::GridSize;
use crate::reinit::{jump_flooding_steps, is_jump_flooding_schedule, max_dim};

verus! {

/// Edge length of the square workgroup of a cell-centred kernel.
pub const WORKGROUP_SIZE: u32 = 8;

/// Number of forward/reverse Jacobi sweep pairs of the pressure solve.
pub const PRESSURE_ITERATIONS: u32 = 50;

/// Capacity of the obstacle list and of every per-solid force bin.
pub const MAX_SOLIDS: u32 = 256;

/// Workgroup counts of one dispatch.
#[derive(Clone, Copy, Debug, PartialEq, Eq, Structural)]
pub struct Workgroups {
    pub x: u32,
    pub y: u32,
    pub z: u32,
}

/// One workgroup of `WORKGROUP_SIZE` x `WORKGROUP_SIZE` per block of cells.
pub open spec fn center_groups(size: GridSize) -> Workgroups {
    Workgroups { x: size.width / 8, y: size.height / 8, z: 1 }
}

/// One column of workgroups per vertical face column, each covering 64 rows.
pub open spec fn x_major_groups(size: GridSize) -> Workgroups {
    Workgroups { x: (size.width + 1) as u32, y: size.height / 64, z: 1 }
}

/// One row of workgroups per horizontal face row, each covering 64 columns.
pub open spec fn y_major_groups(size: GridSize) -> Workgroups {
    Workgroups { x: size.width / 64, y: (size.height + 1) as u32, z: 1 }
}

/// Workgroups for a kernel with one invocation per cell.
pub fn dispatch_center(size: GridSize) -> (r: Workgroups)
    ensures
        r == center_groups(size),
        size.is_recommended_spec() ==> r.x * 8 == size.width && r.y * 8 == size.height,
{
    Workgroups { x: size.width / WORKGROUP_SIZE, y: size.height / WORKGROUP_SIZE, z: 1 }
}

/// Workgroups for a kernel with one invocation per vertical face (x-velocity samples).
pub fn dispatch_x_major(size: GridSize) -> (r: Workgroups)
    requires
        size.wf(),
    ensures
        r == x_major_groups(size),
        size.is_recommended_spec() ==> r.x == size.width + 1 && r.y * 64 == size.height,
{
    Workgroups {
        x: size.width + 1,
        y: size.height / WORKGROUP_SIZE / WORKGROUP_SIZE,
        z: 1,
    }
}

/// Workgroups for a kernel with one invocation per horizontal face (y-velocity samples).
pub fn dispatch_y_major(size: GridSize) -> (r: Workgroups)
    requires
        size.wf(),
    ensures
        r == y_major_groups(size),
        size.is_recommended_spec() ==> r.x * 64 == size.width && r.y == size.height + 1,
{
    Workgroups {
        x: size.width / WORKGROUP_SIZE / WORKGROUP_SIZE,
        y: size.height + 1,
        z: 1,
    }
}


/// The compute kernels of the solver.
#[derive(Clone, Copy, Debug, PartialEq, Eq, Structural)]
pub enum Kernel {
    /// Zero both velocity generations.
    InitializeVelocity,
    /// Write the initial surface from the fill level.
    InitializeGridCenter,
    /// Rasterise obstacles into solid velocity, solid levelset and solid id.
    UpdateSolid,
    /// Enforce the solid boundary condition on pressure.
    UpdateSolidPressure,
    /// Semi-Lagrangian advection of x-velocity.
    AdvectU,
    /// Semi-Lagrangian advection of y-velocity.
    AdvectV,
    /// Gravity and point forces on x-velocity.
    ApplyForcesU,
    /// Gravity and point forces on y-velocity.
    ApplyForcesV,
    /// Cell-centred divergence of the working velocity.
    Divergence,
    /// Jacobi sweep in forward order.
    JacobiForward,
    /// Jacobi sweep in reverse order.
    JacobiReverse,
    /// Subtract the pressure gradient from x-velocity.
    SolveU,
    /// Subtract the pressure gradient from y-velocity.
    SolveV,
    /// Extend x-velocity into air.
    ExtrapolateU,
    /// Extend y-velocity into air.
    ExtrapolateV,
    /// Semi-Lagrangian transport of the surface field.
    AdvectLevelset,
    /// Mark cells next to a sign change as their own nearest seed.
    InitializeSeeds,
    /// One jump-flooding sweep with the given offset.
    JumpFlood { step: u32 },
    /// Signed distance to the retained seeds.
    CalculateSdf,
    /// Sample boundary pressure into per-solid bins.
    SampleForces,
    /// Reduce the bins into the per-solid force buffer.
    AccumulateForces,
}

/// A kernel together with its workgroup counts.
#[derive(Clone, Copy, Debug, PartialEq, Eq, Structural)]
pub struct Dispatch {
    pub kernel: Kernel,
    pub groups: Workgroups,
}

pub open spec fn center(kernel: Kernel, size: GridSize) -> Dispatch {
    Dispatch { kernel, groups: center_groups(size) }
}

pub open spec fn x_major(kernel: Kernel, size: GridSize) -> Dispatch {
    Dispatch { kernel, groups: x_major_groups(size) }
}

pub open spec fn y_major(kernel: Kernel, size: GridSize) -> Dispatch {
    Dispatch { kernel, groups: y_major_groups(size) }
}

/// The passes that write the initial state of a domain.
pub open spec fn initialize_plan_spec(size: GridSize) -> Seq<Dispatch> {
    seq![x_major(Kernel::InitializeVelocity, size), center(Kernel::InitializeGridCenter, size)]
}

/// `n` pairs of forward and reverse Jacobi sweeps.
pub open spec fn jacobi_sweeps(size: GridSize, n: nat) -> Seq<Dispatch>
    decreases n,
{
    if n == 0 {
        Seq::empty()
    } else {
        jacobi_sweeps(size, (n - 1) as nat).push(center(Kernel::JacobiForward, size)).push(
            center(Kernel::JacobiReverse, size),
        )
    }
}

/// The pressure solve is `2n` full-grid sweeps that alternate forward and reverse,
/// starting forward.
pub proof fn lemma_jacobi_alternates(size: GridSize, n: nat)
    ensures
        jacobi_sweeps(size, n).len() == 2 * n,
        forall|i: int| 0 <= i < n ==> {
            &&& #[trigger] jacobi_sweeps(size, n)[2 * i] == center(Kernel::JacobiForward, size)
            &&& jacobi_sweeps(size, n)[2 * i + 1] == center(Kernel::JacobiReverse, size)
        },
    decreases n,
{
    if n > 0 {
        lemma_jacobi_alternates(size, (n - 1) as nat);
        let prev = jacobi_sweeps(size, (n - 1) as nat);
        assert forall|i: int| 0 <= i < n implies {
            &&& #[trigger] jacobi_sweeps(size, n)[2 * i] == center(Kernel::JacobiForward, size)
            &&& jacobi_sweeps(size, n)[2 * i + 1] == center(Kernel::JacobiReverse, size)
        } by {
            if i < n - 1 {
                assert(prev[2 * i] == center(Kernel::JacobiForward, size));
            }
        }
    }
}

/// One jump-flooding sweep per offset of `steps`, in order.
pub open spec fn jump_flood_sweeps(size: GridSize, steps: Seq<u32>) -> Seq<Dispatch> {
    steps.map_values(|s: u32| center(Kernel::JumpFlood { step: s }, size))
}

/// Boundary update, velocity advection, forces and divergence.
pub open spec fn prologue(size: GridSize) -> Seq<Dispatch> {
    seq![
        center(Kernel::UpdateSolid, size),
        center(Kernel::UpdateSolidPressure, size),
        x_major(Kernel::AdvectU, size),
        y_major(Kernel::AdvectV, size),
        x_major(Kernel::ApplyForcesU, size),
        y_major(Kernel::ApplyForcesV, size),
        center(Kernel::Divergence, size),
    ]
}

/// Velocity projection, extrapolation, surface transport and seed initialisation.
pub open spec fn middle(size: GridSize) -> Seq<Dispatch> {
    seq![
        x_major(Kernel::SolveU, size),
        y_major(Kernel::SolveV, size),
        x_major(Kernel::ExtrapolateU, size),
        y_major(Kernel::ExtrapolateV, size),
        center(Kernel::AdvectLevelset, size),
        center(Kernel::InitializeSeeds, size),
    ]
}

/// Signed distance and the two force-coupling passes.
pub open spec fn epilogue(size: GridSize) -> Seq<Dispatch> {
    seq![
        center(Kernel::CalculateSdf, size),
        center(Kernel::SampleForces, size),
        Dispatch { kernel: Kernel::AccumulateForces, groups: Workgroups { x: 256, y: 1, z: 1 } },
    ]
}

/// Every pass of one simulation step, in the order they must run, given the
/// jump-flooding offsets.
pub open spec fn step_plan_with(size: GridSize, steps: Seq<u32>) -> Seq<Dispatch> {
    prologue(size) + jacobi_sweeps(size, 50) + middle(size) + jump_flood_sweeps(size, steps)
        + epilogue(size)
}

/// The passes that write the initial state of a domain: zero velocity, then the
/// initial surface.
pub fn initialize_plan(size: GridSize) -> (r: Vec<Dispatch>)
    requires
        size.wf(),
    ensures
        r@ == initialize_plan_spec(size),
{
    let r = vec![
        Dispatch { kernel: Kernel::InitializeVelocity, groups: dispatch_x_major(size) },
        Dispatch { kernel: Kernel::InitializeGridCenter, groups: dispatch_center(size) },
    ];
    assert(r@ =~= initialize_plan_spec(size));
    r
}

/// Appends `PRESSURE_ITERATIONS` pairs of forward and reverse Jacobi sweeps.
fn push_jacobi_sweeps(plan: &mut Vec<Dispatch>, size: GridSize)
    ensures
        final(plan)@ == old(plan)@ + jacobi_sweeps(size, 50),
{
    let ghost start = old(plan)@;
    let groups = dispatch_center(size);
    let mut i: u32 = 0;
    while i < PRESSURE_ITERATIONS
        invariant
            i <= 50,
            groups == center_groups(size),
            plan@ == start + jacobi_sweeps(size, i as nat),
        decreases 50 - i,
    {
        plan.push(Dispatch { kernel: Kernel::JacobiForward, groups });
        plan.push(Dispatch { kernel: Kernel::JacobiReverse, groups });
        i = i + 1;
        assert(plan@ =~= start + jacobi_sweeps(size, i as nat));
    }
}

/// Appends one jump-flooding sweep per offset of `steps`.
fn push_jump_flood_sweeps(plan: &mut Vec<Dispatch>, size: GridSize, steps: &Vec<u32>)
    ensures
        final(plan)@ == old(plan)@ + jump_flood_sweeps(size, steps@),
{
    let ghost start = old(plan)@;
    let groups = dispatch_center(size);
    let mut i: usize = 0;
    while i < steps.len()
        invariant
            i <= steps@.len(),
            groups == center_groups(size),
            plan@ == start + jump_flood_sweeps(size, steps@.take(i as int)),
        decreases steps@.len() - i,
    {
        plan.push(Dispatch { kernel: Kernel::JumpFlood { step: steps[i] }, groups });
        assert(steps@.take(i as int + 1) =~= steps@.take(i as int).push(steps@[i as int]));
        i = i + 1;
        assert(plan@ =~= start + jump_flood_sweeps(size, steps@.take(i as int)));
    }
    assert(steps@.take(steps@.len() as int) =~= steps@);
}

/// Every pass of one simulation step of a domain of `size`, in order: solid boundary,
/// velocity advection, forces, divergence, the pressure solve, velocity projection,
/// extrapolation, surface advection, surface reinitialisation and force sampling.
pub fn step_plan(size: GridSize) -> (r: Vec<Dispatch>)
    requires
        size.wf(),
    ensures
        exists|steps: Seq<u32>|
            is_jump_flooding_schedule(max_dim(size) as nat, steps)
                && r@ == step_plan_with(size, steps),
{
    let c = dispatch_center(size);
    let xm = dispatch_x_major(size);
    let ym = dispatch_y_major(size);
    let mut plan: Vec<Dispatch> = vec![
        Dispatch { kernel: Kernel::UpdateSolid, groups: c },
        Dispatch { kernel: Kernel::UpdateSolidPressure, groups: c },
        Dispatch { kernel: Kernel::AdvectU, groups: xm },
        Dispatch { kernel: Kernel::AdvectV, groups: ym },
        Dispatch { kernel: Kernel::ApplyForcesU, groups: xm },
        Dispatch { kernel: Kernel::ApplyForcesV, groups: ym },
        Dispatch { kernel: Kernel::Divergence, groups: c },
    ];
    assert(plan@ =~= prologue(size));
    push_jacobi_sweeps(&mut plan, size);
    let ghost after_jacobi = plan@;
    plan.push(Dispatch { kernel: Kernel::SolveU, groups: xm });
    plan.push(Dispatch { kernel: Kernel::SolveV, groups: ym });
    plan.push(Dispatch { kernel: Kernel::ExtrapolateU, groups: xm });
    plan.push(Dispatch { kernel: Kernel::ExtrapolateV, groups: ym });
    plan.push(Dispatch { kernel: Kernel::AdvectLevelset, groups: c });
    plan.push(Dispatch { kernel: Kernel::InitializeSeeds, groups: c });
    assert(plan@ =~= after_jacobi + middle(size));
    let steps = jump_flooding_steps(size);
    let ghost after_middle = plan@;
    push_jump_flood_sweeps(&mut plan, size, &steps);
    let ghost after_flood = plan@;
    plan.push(Dispatch { kernel: Kernel::CalculateSdf, groups: c });
    plan.push(Dispatch { kernel: Kernel::SampleForces, groups: c });
    plan.push(Dispatch { kernel: Kernel::AccumulateForces, groups: Workgroups { x: MAX_SOLIDS, y: 1, z: 1 } });
    assert(plan@ =~= after_flood + epilogue(size));
    assert(plan@ =~= step_plan_with(size, steps@));
    plan
}

} // verus!
