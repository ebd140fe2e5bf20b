//! The per-surface store: one blur state per output surface.
//!
//! Surfaces are identified by the index under which their state was added, an
//! opaque handle the host keeps. Each surface owns exactly one
//! [`BlurRegionsCamera`] for its lifetime; states are never shared across
//! surfaces. [`clear_blur_regions`] is the once-per-frame clear that must run
//! before extraction.

use vstd::prelude::*;
use crate::camera::BlurRegionsCamera;

verus! {

/// An index-keyed store of blur states, one per surface.
pub struct BlurSurfaces {
    states: Vec<BlurRegionsCamera>,
}

impl BlurSurfaces {
    /// The states in surface order.
    pub closed spec fn view(&self) -> Seq<BlurRegionsCamera> {
        self.states@
    }

    /// An empty store.
    pub fn new() -> (r: BlurSurfaces)
        ensures
            r@ == Seq::<BlurRegionsCamera>::empty(),
    {
        BlurSurfaces { states: Vec::new() }
    }

    /// How many surfaces have a state.
    pub fn len(&self) -> (r: usize)
        ensures
            r == self@.len(),
    {
        self.states.len()
    }

    /// Adds the state of a new surface and returns the surface's identifier.
    pub fn add(&mut self, state: BlurRegionsCamera) -> (id: usize)
        ensures
            final(self)@ == old(self)@.push(state),
            id == old(self)@.len(),
    {
        let id = self.states.len();
        self.states.push(state);
        id
    }

    /// The state of surface `id`, read-only.
    pub fn get(&self, id: usize) -> (r: &BlurRegionsCamera)
        requires
            id < self@.len(),
        ensures
            *r == self@[id as int],
    {
        &self.states[id]
    }

    /// The state of surface `id`, for the surface's own clear and extract
    /// steps.
    pub fn get_mut(&mut self, id: usize) -> (r: &mut BlurRegionsCamera)
        requires
            id < old(self)@.len(),
        ensures
            *r == old(self)@[id as int],
            final(self)@ == old(self)@.update(id as int, *final(r)),
    {
        &mut self.states[id]
    }
}

/// The once-per-frame clear: empties every surface's region sequence and
/// keeps every surface's blur strength. Must run before extraction; skipping
/// it would let stale regions of the previous frame persist.
pub fn clear_blur_regions(surfaces: &mut BlurSurfaces)
    ensures
        final(surfaces)@.len() == old(surfaces)@.len(),
        forall|i: int|
            0 <= i < old(surfaces)@.len() ==> {
                &&& #[trigger] final(surfaces)@[i].regions@.len() == 0
                &&& final(surfaces)@[i].circle_of_confusion == old(surfaces)@[i].circle_of_confusion
            },
{
    let n = surfaces.len();
    let mut id: usize = 0;
    while id < n
        invariant
            n == old(surfaces)@.len(),
            id <= n,
            surfaces@.len() == n,
            forall|i: int|
                0 <= i < id ==> {
                    &&& #[trigger] surfaces@[i].regions@.len() == 0
                    &&& surfaces@[i].circle_of_confusion == old(surfaces)@[i].circle_of_confusion
                },
            forall|i: int| id <= i < n ==> #[trigger] surfaces@[i] == old(surfaces)@[i],
        decreases n - id,
    {
        let state = surfaces.get_mut(id);
        state.clear();
        id = id + 1;
    }
}

} // verus!
