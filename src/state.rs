use vstd::prelude::*;

use crate::body::{apply_patch, moved, patched, Body, BodyPatch, Motion};

verus! {

/// The whole simulation: the bodies in insertion order and the parameters
/// of the integrator.
#[derive(Clone, Debug, PartialEq)]
pub struct SimulationState<R> {
    pub bodies: Vec<Body<R>>,
    pub time_step: R,
    pub time_multiplier: R,
    pub gravity_constant: R,
    pub is_running: bool,
    pub elapsed_time: R,
}

/// Whether some body of `bodies` carries `id`.
pub open spec fn has_id<R>(bodies: Seq<Body<R>>, id: u32) -> bool {
    exists|k: int| 0 <= k < bodies.len() && bodies[k].id == id
}

/// Whether `k` is the first index of `bodies` whose body carries `id`.
pub open spec fn first_with_id<R>(bodies: Seq<Body<R>>, id: u32, k: int) -> bool {
    &&& 0 <= k < bodies.len()
    &&& bodies[k].id == id
    &&& forall|l: int| 0 <= l < k ==> bodies[l].id != id
}

/// Whether no two bodies of `bodies` share an id.
pub open spec fn ids_unique<R>(bodies: Seq<Body<R>>) -> bool {
    forall|a: int, b: int|
        0 <= a < b < bodies.len() ==> #[trigger] bodies[a].id != #[trigger] bodies[b].id
}

/// The index of the first body that carries `id`, if any.
pub fn find_body<R>(bodies: &Vec<Body<R>>, id: u32) -> (r: Option<usize>)
    ensures
        r is None <==> !has_id(bodies@, id),
        r matches Some(k) ==> first_with_id(bodies@, id, k as int),
{
    let mut k: usize = 0;
    while k < bodies.len()
        invariant
            k <= bodies@.len(),
            forall|l: int| 0 <= l < k ==> bodies@[l].id != id,
        decreases bodies@.len() - k,
    {
        if bodies[k].id == id {
            return Some(k);
        }
        k = k + 1;
    }
    None
}

/// Turns the integrator on or off; nothing else changes.
pub fn set_simulation_running<R>(sim: &mut SimulationState<R>, running: bool)
    ensures
        *final(sim) == (SimulationState { is_running: running, ..*old(sim) }),
{
    sim.is_running = running;
}

/// Stores the factor that scales the base time step; any value is taken.
pub fn set_time_multiplier<R>(sim: &mut SimulationState<R>, multiplier: R)
    ensures
        *final(sim) == (SimulationState { time_multiplier: multiplier, ..*old(sim) }),
{
    sim.time_multiplier = multiplier;
}

/// Writes the present fields into the first body that carries `id`; with no
/// such body nothing changes. No field is checked for sign or size.
pub fn update_body<R>(
    sim: &mut SimulationState<R>,
    id: u32,
    mass: Option<R>,
    position_x: Option<R>,
    position_y: Option<R>,
    velocity_x: Option<R>,
    velocity_y: Option<R>,
    radius: Option<R>,
    color: Option<String>,
)
    ensures
        !has_id(old(sim).bodies@, id) ==> *final(sim) == *old(sim),
        has_id(old(sim).bodies@, id) ==> exists|k: int|
            first_with_id(old(sim).bodies@, id, k) && final(sim).bodies@ == old(sim).bodies@.update(
                k,
                patched(
                    old(sim).bodies@[k],
                    (BodyPatch { mass, position_x, position_y, velocity_x, velocity_y, radius, color }),
                ),
            ),
        final(sim).bodies@.len() == old(sim).bodies@.len(),
        forall|k: int| 0 <= k < old(sim).bodies@.len() ==>
            (#[trigger] final(sim).bodies@[k]).id == old(sim).bodies@[k].id,
        ids_unique(old(sim).bodies@) ==> ids_unique(final(sim).bodies@),
        final(sim).time_step == old(sim).time_step,
        final(sim).time_multiplier == old(sim).time_multiplier,
        final(sim).gravity_constant == old(sim).gravity_constant,
        final(sim).is_running == old(sim).is_running,
        final(sim).elapsed_time == old(sim).elapsed_time,
{
    let patch = BodyPatch { mass, position_x, position_y, velocity_x, velocity_y, radius, color };
    match find_body(&sim.bodies, id) {
        Some(k) => {
            let old_body = sim.bodies.remove(k);
            let new_body = apply_patch(old_body, patch);
            sim.bodies.insert(k, new_body);
            assert(sim.bodies@ =~= old(sim).bodies@.update(k as int, patched(old(sim).bodies@[k as int], patch)));
        },
        None => {},
    }
}

impl<R> SimulationState<R> {
    /// Commits the outcome of one integration step: each body takes its
    /// position and velocity from `motion`, at the same index, and the clock
    /// reads `elapsed_time`. Ids, masses, radii, colors and the order of the
    /// bodies are kept. A paused simulation is left exactly as it was.
    pub fn commit_step(&mut self, motion: Vec<Motion<R>>, elapsed_time: R)
        requires
            motion@.len() == old(self).bodies@.len(),
        ensures
            !old(self).is_running ==> *final(self) == *old(self),
            old(self).is_running ==> final(self).bodies@ == Seq::new(
                old(self).bodies@.len(),
                |k: int| moved(old(self).bodies@[k], motion@[k]),
            ),
            old(self).is_running ==> final(self).elapsed_time == elapsed_time,
            final(self).bodies@.len() == old(self).bodies@.len(),
            forall|k: int| 0 <= k < old(self).bodies@.len() ==>
                (#[trigger] final(self).bodies@[k]).id == old(self).bodies@[k].id,
            ids_unique(old(self).bodies@) ==> ids_unique(final(self).bodies@),
            final(self).time_step == old(self).time_step,
            final(self).time_multiplier == old(self).time_multiplier,
            final(self).gravity_constant == old(self).gravity_constant,
            final(self).is_running == old(self).is_running,
    {
        if !self.is_running {
            return;
        }
        let ghost start = self.bodies@;
        let ghost all_motion = motion@;
        let mut motion = motion;
        let mut i: usize = motion.len();
        while i > 0
            invariant
                i == motion@.len(),
                i <= start.len(),
                motion@ == all_motion.subrange(0, i as int),
                all_motion.len() == start.len(),
                self.bodies@.len() == start.len(),
                self.is_running == old(self).is_running,
                self.time_step == old(self).time_step,
                self.time_multiplier == old(self).time_multiplier,
                self.gravity_constant == old(self).gravity_constant,
                forall|k: int| 0 <= k < i ==> self.bodies@[k] == start[k],
                forall|k: int|
                    i <= k < start.len() ==> self.bodies@[k] == moved(start[k], all_motion[k]),
            decreases i,
        {
            let m = motion.pop().unwrap();
            i = i - 1;
            let b = self.bodies.remove(i);
            self.bodies.insert(i, Body { position: m.position, velocity: m.velocity, ..b });
        }
        self.elapsed_time = elapsed_time;
        assert(self.bodies@ =~= Seq::new(start.len(), |k: int| moved(start[k], all_motion[k])));
    }
}

} // verus!
