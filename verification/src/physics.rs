//! The physics integrator: one forward Euler step under constant gravity for
//! every ball in the pool.
use crate::kinematics::accelerate;
use crate::kinematics::accelerated;
use crate::kinematics::displace;
use crate::kinematics::displaced;
use crate::kinematics::Position;
use crate::kinematics::Velocity;
use crate::kinematics::GRAVITY_X;
use crate::kinematics::GRAVITY_Y;
use crate::kinematics::GRAVITY_Z;
use crate::pool::Entity;
use crate::pool::Kind;
use crate::pool::Pool;
use vstd::prelude::*;

verus! {

/// A velocity after `delta_nanos` of gravity.
pub open spec fn fallen(velocity: Velocity, delta_nanos: u64) -> Velocity {
    Velocity {
        x: accelerated(velocity.x, GRAVITY_X, delta_nanos),
        y: accelerated(velocity.y, GRAVITY_Y, delta_nanos),
        z: accelerated(velocity.z, GRAVITY_Z, delta_nanos),
    }
}

/// A position after moving at `velocity` for `delta_nanos`.
pub open spec fn moved(position: Position, velocity: Velocity, delta_nanos: u64) -> Position {
    Position {
        x: displaced(position.x, velocity.x, delta_nanos),
        y: displaced(position.y, velocity.y, delta_nanos),
        z: displaced(position.z, velocity.z, delta_nanos),
    }
}

/// One Euler step of an entity: a ball first gains velocity from gravity and
/// then moves at its new velocity; anything else stays as it is.
pub open spec fn integrate(entity: Entity, delta_nanos: u64) -> Entity {
    match entity.kind {
        Kind::BounceBall { velocity } => Entity {
            id: entity.id,
            position: moved(entity.position, fallen(velocity, delta_nanos), delta_nanos),
            kind: Kind::BounceBall { velocity: fallen(velocity, delta_nanos) },
        },
        _ => entity,
    }
}

/// One Euler step of every entity, in pool order.
pub open spec fn integrated(entities: Seq<Entity>, delta_nanos: u64) -> Seq<Entity> {
    entities.map_values(|e: Entity| integrate(e, delta_nanos))
}

/// As long as no component leaves the range that the machine can hold, a
/// step is exact: the velocity gains gravity times the elapsed time, and the
/// position gains the new velocity times the elapsed time.
pub proof fn lemma_step_is_exact(ball: Entity, delta_nanos: u64)
    requires
        ball.kind is BounceBall,
        i64::MIN <= ball.kind->velocity.y + GRAVITY_Y * delta_nanos,
        i128::MIN <= ball.position.x + ball.kind->velocity.x * delta_nanos <= i128::MAX,
        i128::MIN <= ball.position.y + (ball.kind->velocity.y + GRAVITY_Y * delta_nanos)
            * delta_nanos <= i128::MAX,
        i128::MIN <= ball.position.z + ball.kind->velocity.z * delta_nanos <= i128::MAX,
    ensures
        integrate(ball, delta_nanos).id == ball.id,
        integrate(ball, delta_nanos).kind is BounceBall,
        integrate(ball, delta_nanos).kind->velocity.x == ball.kind->velocity.x,
        integrate(ball, delta_nanos).kind->velocity.y == ball.kind->velocity.y + GRAVITY_Y
            * delta_nanos,
        integrate(ball, delta_nanos).kind->velocity.z == ball.kind->velocity.z,
        integrate(ball, delta_nanos).position.x == ball.position.x + integrate(
            ball,
            delta_nanos,
        ).kind->velocity.x * delta_nanos,
        integrate(ball, delta_nanos).position.y == ball.position.y + integrate(
            ball,
            delta_nanos,
        ).kind->velocity.y * delta_nanos,
        integrate(ball, delta_nanos).position.z == ball.position.z + integrate(
            ball,
            delta_nanos,
        ).kind->velocity.z * delta_nanos,
{
    assert(GRAVITY_X * delta_nanos == 0 && GRAVITY_Z * delta_nanos == 0) by {
        assert(GRAVITY_X == 0 && GRAVITY_Z == 0);
    }
    assert(GRAVITY_Y * delta_nanos <= 0) by (nonlinear_arith)
        requires
            GRAVITY_Y < 0,
            delta_nanos >= 0,
    ;
}

/// Takes one entity through one Euler step.
pub fn step(entity: Entity, delta_nanos: u64) -> (after: Entity)
    ensures
        after == integrate(entity, delta_nanos),
{
    match entity.kind {
        Kind::BounceBall { velocity } => {
            let velocity = Velocity {
                x: accelerate(velocity.x, GRAVITY_X, delta_nanos),
                y: accelerate(velocity.y, GRAVITY_Y, delta_nanos),
                z: accelerate(velocity.z, GRAVITY_Z, delta_nanos),
            };
            let position = Position {
                x: displace(entity.position.x, velocity.x, delta_nanos),
                y: displace(entity.position.y, velocity.y, delta_nanos),
                z: displace(entity.position.z, velocity.z, delta_nanos),
            };
            Entity { id: entity.id, position, kind: Kind::BounceBall { velocity } }
        },
        _ => entity,
    }
}

/// Advances every ball in the pool by one frame's elapsed time. Nothing is
/// created or removed, and no identifier changes.
pub fn apply_physics(delta_nanos: u64, pool: &mut Pool)
    requires
        old(pool).wf(),
    ensures
        final(pool).wf(),
        final(pool).next_id() == old(pool).next_id(),
        final(pool)@ == integrated(old(pool)@, delta_nanos),
{
    let ghost before = pool@;
    let present = pool.len();
    let mut i: usize = 0;
    while i < present
        invariant
            i <= present == before.len(),
            pool@.len() == before.len(),
            pool.next_id() == old(pool).next_id(),
            forall|k: int| 0 <= k < i ==> #[trigger] pool@[k] == integrate(before[k], delta_nanos),
            forall|k: int| i <= k < present ==> #[trigger] pool@[k] == before[k],
        decreases present - i,
    {
        let after = step(pool.entity(i), delta_nanos);
        pool.entities.set(i, after);
        i += 1;
    }
    assert(pool@ =~= integrated(before, delta_nanos));
}

} // verus!
