//! Physics backends: the interface a backend implements, and a backend that
//! leaves the scene as it is.
use vstd::prelude::*;

use crate::scene::Scene;

verus! {

/// A physics backend advances a scene by a time step.
pub trait PhysicsWorld<S> {
    type Error;

    fn step(&mut self, scene: &mut Scene<S>, dt_seconds: S) -> Result<(), Self::Error>;
}

/// A backend without dynamics: stepping leaves the scene unchanged.
#[derive(Debug, Default, Clone, Copy)]
pub struct NoopPhysicsWorld;

impl NoopPhysicsWorld {
    /// Steps the scene; nothing moves.
    pub fn step_scene<S>(&mut self, scene: &mut Scene<S>, dt_seconds: S) -> (result: Result<(), core::convert::Infallible>)
        ensures
            result is Ok,
            final(scene)@ == old(scene)@,
            final(scene).next_id() == old(scene).next_id(),
    {
        Ok(())
    }
}

impl<S> PhysicsWorld<S> for NoopPhysicsWorld {
    type Error = core::convert::Infallible;

    fn step(&mut self, scene: &mut Scene<S>, dt_seconds: S) -> (result: Result<(), core::convert::Infallible>)
        ensures
            result is Ok,
            final(scene)@ == old(scene)@,
            final(scene).next_id() == old(scene).next_id(),
    {
        self.step_scene(scene, dt_seconds)
    }
}

} // verus!
