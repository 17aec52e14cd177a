//! Selection of the rigid bodies that are rasterised into a fluid domain.
use vstd::prelude::*;
use crate::plan::MAX_SOLIDS;

verus! {

/// Collider shape of a rigid body, as far as rasterisation is concerned.
#[derive(Clone, Copy, Debug, PartialEq, Eq, Structural)]
pub enum ShapeKind {
    /// A disc, given by its radius.
    Ball,
    /// A box, given by its half extents.
    Cuboid,
    /// A triangle, given by its three vertices.
    Triangle,
    /// Any other collider; it cannot be rasterised.
    Unsupported,
}

pub open spec fn is_supported(kind: ShapeKind) -> bool {
    kind != ShapeKind::Unsupported
}

/// Solid ids of the bodies that become obstacles: the enumeration index of each body
/// with a supported shape, among the first `MAX_SOLIDS` bodies, in enumeration order.
pub open spec fn obstacle_ids(kinds: Seq<ShapeKind>) -> Seq<u32>
    decreases kinds.len(),
{
    if kinds.len() == 0 {
        Seq::empty()
    } else {
        let i = kinds.len() - 1;
        let prev = obstacle_ids(kinds.drop_last());
        if i < 256 && is_supported(kinds[i]) {
            prev.push(i as u32)
        } else {
            prev
        }
    }
}

/// Indices of the bodies among the first `MAX_SOLIDS` whose shape is not supported.
pub open spec fn unsupported_ids(kinds: Seq<ShapeKind>) -> Seq<u32>
    decreases kinds.len(),
{
    if kinds.len() == 0 {
        Seq::empty()
    } else {
        let i = kinds.len() - 1;
        let prev = unsupported_ids(kinds.drop_last());
        if i < 256 && !is_supported(kinds[i]) {
            prev.push(i as u32)
        } else {
            prev
        }
    }
}

/// The outcome of selecting obstacles from the host's bodies.
#[derive(Clone, Debug)]
pub struct ObstacleSelection {
    /// Solid ids, which are also the bodies' enumeration indices, of the rasterised bodies.
    pub ids: Vec<u32>,
    /// Bodies skipped because their shape cannot be rasterised.
    pub unsupported: Vec<u32>,
    /// Number of bodies dropped because the obstacle list is full.
    pub over_capacity: usize,
}

/// Chooses which of the host's bodies, given by their shapes in enumeration order, are
/// rasterised. Bodies past `MAX_SOLIDS` and bodies with unsupported shapes are dropped;
/// the others keep their enumeration index as solid id.
pub fn select_obstacles(kinds: &Vec<ShapeKind>) -> (r: ObstacleSelection)
    ensures
        r.ids@ == obstacle_ids(kinds@),
        r.unsupported@ == unsupported_ids(kinds@),
        r.over_capacity == (if kinds@.len() > 256 { kinds@.len() - 256 } else { 0 }),
{
    let mut ids: Vec<u32> = Vec::new();
    let mut unsupported: Vec<u32> = Vec::new();
    let n = kinds.len();
    let limit: usize = if n < MAX_SOLIDS as usize { n } else { MAX_SOLIDS as usize };
    let mut i: usize = 0;
    while i < limit
        invariant
            limit <= kinds@.len(),
            limit <= 256,
            n == kinds@.len(),
            limit == (if n < 256 { n } else { 256 }),
            i <= limit,
            ids@ == obstacle_ids(kinds@.take(i as int)),
            unsupported@ == unsupported_ids(kinds@.take(i as int)),
        decreases limit - i,
    {
        let ghost before = kinds@.take(i as int);
        let ghost after = kinds@.take(i as int + 1);
        assert(after.drop_last() =~= before);
        match kinds[i] {
            ShapeKind::Unsupported => unsupported.push(i as u32),
            _ => ids.push(i as u32),
        }
        i = i + 1;
    }
    proof {
        lemma_ids_stop_at_capacity(kinds@, limit as int);
    }
    ObstacleSelection { ids, unsupported, over_capacity: n - limit }
}

/// Bodies past `MAX_SOLIDS` contribute nothing to either list.
proof fn lemma_ids_stop_at_capacity(kinds: Seq<ShapeKind>, limit: int)
    requires
        limit == (if kinds.len() < 256 { kinds.len() as int } else { 256 }),
    ensures
        obstacle_ids(kinds) == obstacle_ids(kinds.take(limit)),
        unsupported_ids(kinds) == unsupported_ids(kinds.take(limit)),
    decreases kinds.len(),
{
    if kinds.len() > limit {
        lemma_ids_stop_at_capacity(kinds.drop_last(), limit);
        assert(kinds.drop_last().take(limit) =~= kinds.take(limit));
    } else {
        assert(kinds.take(limit) =~= kinds);
    }
}

/// The obstacle list holds each supported body among the first `MAX_SOLIDS` exactly once,
/// in enumeration order, and nothing else; every solid id fits the per-solid bins.
pub proof fn lemma_obstacle_ids(kinds: Seq<ShapeKind>)
    ensures
        forall|a: int, b: int| 0 <= a < b < obstacle_ids(kinds).len()
            ==> obstacle_ids(kinds)[a] < obstacle_ids(kinds)[b],
        forall|a: int| 0 <= a < obstacle_ids(kinds).len() ==> {
            let id = #[trigger] obstacle_ids(kinds)[a];
            &&& id < 256
            &&& id < kinds.len()
            &&& is_supported(kinds[id as int])
        },
        forall|i: int| 0 <= i < kinds.len() && i < 256 && is_supported(kinds[i])
            ==> #[trigger] obstacle_ids(kinds).contains(i as u32),
    decreases kinds.len(),
{
    if kinds.len() > 0 {
        let prev = kinds.drop_last();
        lemma_obstacle_ids(prev);
        let last = kinds.len() - 1;
        assert forall|i: int| 0 <= i < kinds.len() && i < 256 && is_supported(kinds[i])
            implies #[trigger] obstacle_ids(kinds).contains(i as u32) by {
            if i < last {
                assert(prev[i] == kinds[i]);
                assert(obstacle_ids(prev).contains(i as u32));
                let k = choose|k: int| 0 <= k < obstacle_ids(prev).len() && obstacle_ids(prev)[k] == i as u32;
                assert(obstacle_ids(kinds)[k] == i as u32);
            } else {
                assert(obstacle_ids(kinds).last() == i as u32);
            }
        }
    }
}

} // verus!
