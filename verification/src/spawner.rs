//! The spawn controller: one new ball per spawn point whenever the spawn
//! timer completes a period.
use crate::kinematics::Position;
use crate::kinematics::Velocity;
use crate::kinematics::LAUNCH_X;
use crate::kinematics::LAUNCH_Y;
use crate::kinematics::LAUNCH_Z;
use crate::pool::ids;
use crate::pool::ids_rise;
use crate::pool::lemma_filtered_was_present;
use crate::pool::Entity;
use crate::pool::Kind;
use crate::pool::Pool;
use crate::timer::carry;
use crate::timer::fires;
use crate::timer::SpawnTimer;
use vstd::prelude::*;

verus! {

/// Whether an entity is a spawn point.
pub open spec fn is_spawner(entity: Entity) -> bool {
    entity.kind is Spawner
}

/// The spawn points among `entities`, in pool order.
pub open spec fn spawn_points(entities: Seq<Entity>) -> Seq<Entity> {
    entities.filter(|e: Entity| is_spawner(e))
}

/// The velocity that every ball starts with: (5, 20, 3) world units per second.
pub open spec fn launch_velocity() -> Velocity {
    Velocity { x: LAUNCH_X, y: LAUNCH_Y, z: LAUNCH_Z }
}

/// A ball as it is created: at `position`, with the launch velocity.
pub open spec fn new_ball(id: u64, position: Position) -> Entity {
    Entity { id, position, kind: Kind::BounceBall { velocity: launch_velocity() } }
}

/// The balls that one firing creates: one at each of `points`, in order,
/// with consecutive identifiers from `first_id`.
pub open spec fn launched(points: Seq<Entity>, first_id: nat) -> Seq<Entity> {
    Seq::new(points.len(), |k: int| new_ball((first_id + k) as u64, points[k].position))
}

/// A firing creates exactly one ball for each spawn point of the pool: at
/// that point's position, with the launch velocity, and with an identifier
/// that was not in use. Every spawn point of the pool is counted, and nothing
/// else is.
pub proof fn lemma_one_ball_per_spawn_point(before: Seq<Entity>, first_id: nat)
    requires
        ids_rise(before, first_id),
        first_id + spawn_points(before).len() <= u64::MAX,
    ensures
        forall|i: int, k: int|
            0 <= i < before.len() && 0 <= k < spawn_points(before).len() ==> (
            #[trigger] before[i]).id != (#[trigger] launched(spawn_points(before), first_id)[k]).id,
        launched(spawn_points(before), first_id).len() == spawn_points(before).len(),
        forall|k: int|
            0 <= k < spawn_points(before).len() ==> {
                &&& is_spawner(#[trigger] spawn_points(before)[k])
                &&& before.contains(spawn_points(before)[k])
                &&& launched(spawn_points(before), first_id)[k] == new_ball(
                    (first_id + k) as u64,
                    spawn_points(before)[k].position,
                )
                &&& launched(spawn_points(before), first_id)[k].id == first_id + k
            },
        forall|i: int|
            0 <= i < before.len() && is_spawner(before[i]) ==> spawn_points(before).contains(
                #[trigger] before[i],
            ),
{
    let keep = |e: Entity| is_spawner(e);
    assert forall|k: int| 0 <= k < spawn_points(before).len() implies is_spawner(
        #[trigger] spawn_points(before)[k],
    ) && before.contains(spawn_points(before)[k]) by {
        lemma_filtered_was_present(before, keep, k);
    }
    assert forall|i: int| 0 <= i < before.len() && is_spawner(before[i]) implies spawn_points(
        before,
    ).contains(#[trigger] before[i]) by {
        before.lemma_filter_contains(keep, i);
    }
}

/// Looking at one more entity adds it to the spawn points exactly if it is one.
proof fn lemma_spawn_points_step(entities: Seq<Entity>, i: int)
    requires
        0 <= i < entities.len(),
    ensures
        spawn_points(entities.take(i + 1)) == if is_spawner(entities[i]) {
            spawn_points(entities.take(i)).push(entities[i])
        } else {
            spawn_points(entities.take(i))
        },
        spawn_points(entities.take(i + 1)).len() <= spawn_points(entities).len(),
{
    reveal(Seq::filter);
    assert(entities.take(i + 1).drop_last() =~= entities.take(i));
    let pred = |e: Entity| is_spawner(e);
    assert(entities =~= entities.take(i + 1) + entities.skip(i + 1));
    Seq::filter_distributes_over_add(entities.take(i + 1), entities.skip(i + 1), pred);
}

/// Counts the spawn points in the pool.
pub fn count_spawn_points(pool: &Pool) -> (count: usize)
    ensures
        count == spawn_points(pool@).len(),
{
    let present = pool.len();
    let mut count: usize = 0;
    let mut i: usize = 0;
    assert(spawn_points(pool@.take(0)) =~= Seq::<Entity>::empty());
    while i < present
        invariant
            i <= present == pool@.len(),
            count == spawn_points(pool@.take(i as int)).len(),
            count <= i,
        decreases present - i,
    {
        proof {
            lemma_spawn_points_step(pool@, i as int);
        }
        if let Kind::Spawner = pool.entity(i).kind {
            count += 1;
        }
        i += 1;
    }
    assert(pool@.take(present as int) =~= pool@);
    count
}

/// Advances the spawn timer by one frame's elapsed time and, if it completes
/// a period in this frame, creates one ball at every spawn point. Returns the
/// identifiers of the balls created.
pub fn spawn_ball(delta_nanos: u64, ball_timer: &mut SpawnTimer, pool: &mut Pool) -> (born: Vec<u64>)
    requires
        old(ball_timer).wf(),
        old(pool).wf(),
        fires(old(ball_timer).elapsed(), delta_nanos as nat) ==> spawn_points(old(pool)@).len()
            <= old(pool).spare(),
    ensures
        final(ball_timer).wf(),
        final(ball_timer).elapsed() == carry(old(ball_timer).elapsed(), delta_nanos as nat),
        final(pool).wf(),
        fires(old(ball_timer).elapsed(), delta_nanos as nat) ==> {
            &&& final(pool)@ == old(pool)@ + launched(
                spawn_points(old(pool)@),
                old(pool).next_id(),
            )
            &&& born@ == ids(launched(spawn_points(old(pool)@), old(pool).next_id()))
            &&& final(pool).next_id() == old(pool).next_id() + spawn_points(old(pool)@).len()
        },
        !fires(old(ball_timer).elapsed(), delta_nanos as nat) ==> {
            &&& final(pool)@ == old(pool)@
            &&& born@ == Seq::<u64>::empty()
            &&& final(pool).next_id() == old(pool).next_id()
        },
{
    let mut born: Vec<u64> = Vec::new();
    if !ball_timer.tick(delta_nanos) {
        return born;
    }
    let ghost before = pool@;
    let ghost first_id = pool.next_id();
    let present = pool.len();
    let mut i: usize = 0;
    assert(pool@ =~= before + launched(spawn_points(before.take(0)), first_id));
    assert(born@ =~= ids(launched(spawn_points(before.take(0)), first_id)));
    while i < present
        invariant
            i <= present == before.len(),
            pool.wf(),
            spawn_points(before).len() <= u64::MAX - first_id,
            spawn_points(before.take(i as int)).len() <= spawn_points(before).len(),
            pool.next_id() == first_id + spawn_points(before.take(i as int)).len(),
            pool@ == before + launched(spawn_points(before.take(i as int)), first_id),
            born@ == ids(launched(spawn_points(before.take(i as int)), first_id)),
        decreases present - i,
    {
        let entity = pool.entity(i);
        proof {
            lemma_spawn_points_step(before, i as int);
        }
        if let Kind::Spawner = entity.kind {
            let ghost points = spawn_points(before.take(i as int));
            let id = pool.spawn(
                entity.position,
                Kind::BounceBall { velocity: Velocity { x: LAUNCH_X, y: LAUNCH_Y, z: LAUNCH_Z } },
            );
            born.push(id);
            assert(launched(points.push(entity), first_id) =~= launched(points, first_id).push(
                new_ball(id, entity.position),
            ));
            assert(pool@ =~= before + launched(points.push(entity), first_id));
            assert(born@ =~= ids(launched(points.push(entity), first_id)));
        }
        i += 1;
    }
    assert(before.take(present as int) =~= before);
    born
}

} // verus!
