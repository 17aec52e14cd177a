//! Host side of the fluid-to-solid force coupling: the per-solid bins that are reset
//! before every step, and delivery of the read-back forces to rigid bodies, at most
//! once per physics tick.
use vstd::prelude::*;
use crate::plan::MAX_SOLIDS;

verus! {

/// Point forces injected by the host since the last step; each is handed to the GPU
/// once and then forgotten.
#[derive(Debug)]
pub struct ForcesToFluid<F> {
    pub forces: Vec<F>,
}

impl<F> ForcesToFluid<F> {
    /// No pending force.
    pub fn new() -> (r: ForcesToFluid<F>)
        ensures
            r.forces@.len() == 0,
    {
        ForcesToFluid { forces: Vec::new() }
    }

    /// Queues a force for the next step.
    pub fn push(&mut self, force: F)
        ensures
            final(self).forces@ == old(self).forces@.push(force),
    {
        self.forces.push(force);
    }

    /// Hands out every pending force, in the order queued, and clears the queue, so that
    /// a force is applied in at most one step.
    pub fn take_all(&mut self) -> (r: Vec<F>)
        ensures
            r@ == old(self).forces@,
            final(self).forces@.len() == 0,
    {
        let mut taken: Vec<F> = Vec::new();
        std::mem::swap(&mut taken, &mut self.forces);
        taken
    }
}

/// How the host's physics engine moves a rigid body.
#[derive(Clone, Copy, Debug, PartialEq, Eq, Structural)]
pub enum BodyKind {
    /// Integrated by the physics engine: fluid forces apply to it.
    Dynamic,
    /// Never moves: it affects the fluid but receives no force.
    Static,
    /// Moved by the host: it affects the fluid but receives no force.
    Kinematic,
}

/// A zeroed per-solid accumulator, one entry per possible solid id.
pub fn zeroed_bins() -> (r: Vec<u32>)
    ensures
        r@.len() == 256,
        forall|i: int| 0 <= i < 256 ==> r@[i] == 0,
{
    let mut bins: Vec<u32> = Vec::new();
    let mut i: u32 = 0;
    while i < MAX_SOLIDS
        invariant
            i <= 256,
            bins@.len() == i,
            forall|j: int| 0 <= j < i ==> bins@[j] == 0,
        decreases 256 - i,
    {
        bins.push(0);
        i = i + 1;
    }
    bins
}

/// Solid ids that receive force: the position of every tracked body that still exists
/// and is dynamic, among the first `MAX_SOLIDS`, in order.
pub open spec fn dynamic_slots(bodies: Seq<Option<BodyKind>>) -> Seq<usize>
    decreases bodies.len(),
{
    if bodies.len() == 0 {
        Seq::empty()
    } else {
        let i = bodies.len() - 1;
        let prev = dynamic_slots(bodies.drop_last());
        if i < 256 && bodies[i] == Some(BodyKind::Dynamic) {
            prev.push(i as usize)
        } else {
            prev
        }
    }
}

/// Remembers the last physics tick whose forces were delivered.
#[derive(Clone, Copy, Debug, PartialEq, Eq, Structural)]
pub struct ReadbackTracker {
    pub last_step: u64,
}

/// The tracker and the solid ids that receive force after a read-back notification for
/// tick `step`: nothing when that tick was already delivered.
pub open spec fn readback_spec(tracker: ReadbackTracker, step: u64, bodies: Seq<Option<BodyKind>>) -> (ReadbackTracker, Seq<usize>) {
    if step == tracker.last_step {
        (tracker, Seq::empty())
    } else {
        (ReadbackTracker { last_step: step }, dynamic_slots(bodies))
    }
}

impl ReadbackTracker {
    /// A tracker that has delivered nothing; tick zero counts as delivered.
    pub fn new() -> (r: ReadbackTracker)
        ensures
            r.last_step == 0,
    {
        ReadbackTracker { last_step: 0 }
    }

    /// Handles a read-back notification for physics tick `step`. `bodies` holds, per
    /// tracked body in solid-id order, its kind, or `None` where it no longer exists.
    /// Returns the solid ids whose force is to be applied.
    pub fn on_readback(&mut self, step: u64, bodies: &Vec<Option<BodyKind>>) -> (r: Vec<usize>)
        ensures
            (*final(self), r@) == readback_spec(*old(self), step, bodies@),
    {
        if step == self.last_step {
            return Vec::new();
        }
        self.last_step = step;
        let mut slots: Vec<usize> = Vec::new();
        let n = bodies.len();
        let limit: usize = if n < MAX_SOLIDS as usize { n } else { MAX_SOLIDS as usize };
        let mut i: usize = 0;
        while i < limit
            invariant
                limit == (if n < 256 { n } else { 256 }),
                n == bodies@.len(),
                i <= limit,
                slots@ == dynamic_slots(bodies@.take(i as int)),
            decreases limit - i,
        {
            assert(bodies@.take(i as int + 1).drop_last() =~= bodies@.take(i as int));
            match bodies[i] {
                Some(BodyKind::Dynamic) => slots.push(i),
                _ => {},
            }
            i = i + 1;
        }
        proof {
            lemma_slots_stop_at_capacity(bodies@, limit as int);
        }
        slots
    }
}

/// Bodies past `MAX_SOLIDS` receive nothing.
proof fn lemma_slots_stop_at_capacity(bodies: Seq<Option<BodyKind>>, limit: int)
    requires
        limit == (if bodies.len() < 256 { bodies.len() as int } else { 256 }),
    ensures
        dynamic_slots(bodies) == dynamic_slots(bodies.take(limit)),
    decreases bodies.len(),
{
    if bodies.len() > limit {
        lemma_slots_stop_at_capacity(bodies.drop_last(), limit);
        assert(bodies.drop_last().take(limit) =~= bodies.take(limit));
    } else {
        assert(bodies.take(limit) =~= bodies);
    }
}

/// Each dynamic body among the first `MAX_SOLIDS` appears exactly once, in order, and
/// nothing else appears.
pub proof fn lemma_dynamic_slots(bodies: Seq<Option<BodyKind>>)
    ensures
        forall|a: int, b: int| 0 <= a < b < dynamic_slots(bodies).len()
            ==> dynamic_slots(bodies)[a] < dynamic_slots(bodies)[b],
        forall|a: int| 0 <= a < dynamic_slots(bodies).len() ==> {
            let s = #[trigger] dynamic_slots(bodies)[a];
            &&& s < 256
            &&& s < bodies.len()
            &&& bodies[s as int] == Some(BodyKind::Dynamic)
        },
        forall|i: int| 0 <= i < bodies.len() && i < 256 && bodies[i] == Some(BodyKind::Dynamic)
            ==> #[trigger] dynamic_slots(bodies).contains(i as usize),
    decreases bodies.len(),
{
    if bodies.len() > 0 {
        let prev = bodies.drop_last();
        lemma_dynamic_slots(prev);
        let last = bodies.len() - 1;
        assert forall|i: int| 0 <= i < bodies.len() && i < 256 && bodies[i] == Some(BodyKind::Dynamic)
            implies #[trigger] dynamic_slots(bodies).contains(i as usize) by {
            if i < last {
                assert(prev[i] == bodies[i]);
                assert(dynamic_slots(prev).contains(i as usize));
                let k = choose|k: int| 0 <= k < dynamic_slots(prev).len() && dynamic_slots(prev)[k] == i as usize;
                assert(dynamic_slots(bodies)[k] == i as usize);
            } else {
                assert(dynamic_slots(bodies).last() == i as usize);
            }
        }
    }
}

/// Two read-back notifications for the same physics tick deliver the force of each
/// dynamic body exactly once between them: the second one delivers nothing and leaves
/// the tracker as the first one left it.
pub proof fn lemma_readback_idempotent(tracker: ReadbackTracker, step: u64, bodies: Seq<Option<BodyKind>>)
    ensures
        ({
            let (g1, a1) = readback_spec(tracker, step, bodies);
            let (g2, a2) = readback_spec(g1, step, bodies);
            &&& g2 == g1
            &&& a2.len() == 0
            &&& step != tracker.last_step ==> forall|i: int|
                0 <= i < bodies.len() && i < 256 && bodies[i] == Some(BodyKind::Dynamic)
                    ==> #[trigger] (a1 + a2).to_multiset().count(i as usize) == 1
        }),
{
    let (g1, a1) = readback_spec(tracker, step, bodies);
    let (g2, a2) = readback_spec(g1, step, bodies);
    assert(a1 + a2 =~= a1);
    if step != tracker.last_step {
        lemma_dynamic_slots(bodies);
        assert forall|i: int| 0 <= i < bodies.len() && i < 256 && bodies[i] == Some(BodyKind::Dynamic)
            implies #[trigger] (a1 + a2).to_multiset().count(i as usize) == 1 by {
            let s = dynamic_slots(bodies);
            assert(s.contains(i as usize));
            lemma_count_in_increasing(s, i as usize);
        }
    }
}

/// In a strictly increasing sequence a present value occurs once.
proof fn lemma_count_in_increasing(s: Seq<usize>, v: usize)
    requires
        forall|a: int, b: int| 0 <= a < b < s.len() ==> s[a] < s[b],
        s.contains(v),
    ensures
        s.to_multiset().count(v) == 1,
    decreases s.len(),
{
    s.to_multiset_ensures();
    let prev = s.drop_last();
    prev.to_multiset_ensures();
    assert(s =~= prev.push(s.last()));
    if s.last() == v {
        if prev.contains(v) {
            let k = choose|k: int| 0 <= k < prev.len() && prev[k] == v;
            assert(s[k] < s[s.len() - 1]);
        }
        assert(prev.to_multiset().count(v) == 0);
    } else {
        let k = choose|k: int| 0 <= k < s.len() && s[k] == v;
        assert(prev[k] == v);
        lemma_count_in_increasing(prev, v);
    }
}

} // verus!
