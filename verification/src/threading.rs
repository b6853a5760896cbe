//! The producer side of the simulation/presentation boundary.
//!
//! The simulation thread owns the [`PhysicsWorld`] exclusively and talks
//! to the presentation thread only through detached snapshot messages.
//! [`step_frame`] is the computational core of one driver iteration; the
//! loop around it (wall-clock timing, the channel send, the shutdown
//! flag) lives outside the verified library.

use vstd::prelude::*;

use crate::fixed::Fx;
use crate::fixed::fx_add;
use crate::phys::InstanceData;
use crate::phys::PhysicsWorld;
use crate::phys::instance_data_spec;
use crate::phys::step_particles;

verus! {

/// A message from the simulation thread to the presentation thread: a
/// fully detached copy of all particles' instance data at one point in
/// simulated time.
#[derive(Clone, Debug, PartialEq, Eq)]
pub enum PhysicsMessage {
    InstanceData(Vec<InstanceData>),
}

/// One driver iteration without its I/O: advance the world by the elapsed
/// delta and detach the snapshot message to hand across the channel.
///
/// The driver loop measures the wall-clock delta (a variable-step
/// integrator: no minimum or maximum clamp is applied), calls this, sends
/// the message, and exits when the shutdown flag clears or the send
/// fails.
pub fn step_frame(world: &mut PhysicsWorld, dt: Fx) -> (r: PhysicsMessage)
    ensures
        final(world).particles@ == step_particles(old(world).particles@, old(world).t, dt),
        final(world).planes@ == old(world).planes@,
        final(world).gravity == old(world).gravity,
        final(world).t == fx_add(old(world).t, dt),
        r matches PhysicsMessage::InstanceData(d) && d@ == instance_data_spec(
            final(world).particles@,
        ),
{
    world.update(dt);
    PhysicsMessage::InstanceData(world.get_instance_data())
}

} // verus!
