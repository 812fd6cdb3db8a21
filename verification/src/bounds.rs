//! The bounds reaper: balls that have fallen below the floor leave the pool.
use crate::kinematics::FLOOR;
use crate::pool::ids;
use crate::pool::ids_rise;
use crate::pool::lemma_filter_ids_rise;
use crate::pool::lemma_filtered_was_present;
use crate::pool::Entity;
use crate::pool::Kind;
use crate::pool::Pool;
use vstd::prelude::*;

verus! {

/// Whether an entity is a ball strictly below the floor.
pub open spec fn out_of_bounds(entity: Entity) -> bool {
    entity.kind is BounceBall && entity.position.y < FLOOR
}

/// The entities that the reaper leaves in the pool, in pool order.
pub open spec fn survivors(entities: Seq<Entity>) -> Seq<Entity> {
    entities.filter(|e: Entity| !out_of_bounds(e))
}

/// The entities that the reaper removes, in pool order.
pub open spec fn casualties(entities: Seq<Entity>) -> Seq<Entity> {
    entities.filter(|e: Entity| out_of_bounds(e))
}

/// A ball below the floor is gone after the reaper has run: no survivor is
/// that ball, and none carries its identifier.
pub proof fn lemma_out_of_bounds_is_removed(before: Seq<Entity>, bound: nat, ball: Entity)
    requires
        ids_rise(before, bound),
        before.contains(ball),
        out_of_bounds(ball),
    ensures
        !survivors(before).contains(ball),
        forall|k: int| 0 <= k < survivors(before).len() ==> (#[trigger] survivors(before)[k]).id != ball.id,
{
    let keep = |e: Entity| !out_of_bounds(e);
    assert forall|k: int| 0 <= k < survivors(before).len() implies (#[trigger] survivors(
        before,
    )[k]).id != ball.id by {
        lemma_filtered_was_present(before, keep, k);
        let kept = survivors(before)[k];
        let i = choose|i: int| 0 <= i < before.len() && before[i] == kept;
        let j = choose|j: int| 0 <= j < before.len() && before[j] == ball;
        if i < j {
            assert(before[i].id < before[j].id);
        } else if j < i {
            assert(before[j].id < before[i].id);
        }
    }
}

/// An entity that is not a ball below the floor is still in the pool,
/// unchanged, after the reaper has run.
pub proof fn lemma_in_bounds_is_kept(before: Seq<Entity>, entity: Entity)
    requires
        before.contains(entity),
        !out_of_bounds(entity),
    ensures
        survivors(before).contains(entity),
{
    let keep = |e: Entity| !out_of_bounds(e);
    let i = choose|i: int| 0 <= i < before.len() && before[i] == entity;
    before.lemma_filter_contains(keep, i);
}

/// Once the reaper has run, no ball in the pool is below the floor.
pub proof fn lemma_survivors_are_in_bounds(before: Seq<Entity>, k: int)
    requires
        0 <= k < survivors(before).len(),
    ensures
        !out_of_bounds(survivors(before)[k]),
        before.contains(survivors(before)[k]),
{
    lemma_filtered_was_present(before, |e: Entity| !out_of_bounds(e), k);
}

/// Looking at one more entity adds it to the survivors or to the casualties.
proof fn lemma_reap_step(entities: Seq<Entity>, i: int)
    requires
        0 <= i < entities.len(),
    ensures
        survivors(entities.take(i + 1)) == if out_of_bounds(entities[i]) {
            survivors(entities.take(i))
        } else {
            survivors(entities.take(i)).push(entities[i])
        },
        casualties(entities.take(i + 1)) == if out_of_bounds(entities[i]) {
            casualties(entities.take(i)).push(entities[i])
        } else {
            casualties(entities.take(i))
        },
{
    reveal(Seq::filter);
    assert(entities.take(i + 1).drop_last() =~= entities.take(i));
}

/// Removes every ball whose height is strictly below the floor, and returns
/// the identifiers of the balls removed. Everything else stays as it is.
pub fn check_out_of_bounds(pool: &mut Pool) -> (reaped: Vec<u64>)
    requires
        old(pool).wf(),
    ensures
        final(pool).wf(),
        final(pool).next_id() == old(pool).next_id(),
        final(pool)@ == survivors(old(pool)@),
        reaped@ == ids(casualties(old(pool)@)),
        forall|k: int| 0 <= k < final(pool)@.len() ==> !out_of_bounds(#[trigger] final(pool)@[k]),
{
    let ghost before = pool@;
    let mut kept: Vec<Entity> = Vec::new();
    let mut reaped: Vec<u64> = Vec::new();
    let present = pool.len();
    let mut i: usize = 0;
    assert(kept@ =~= survivors(before.take(0)));
    assert(reaped@ =~= ids(casualties(before.take(0))));
    while i < present
        invariant
            i <= present == before.len(),
            pool@ == before,
            kept@ == survivors(before.take(i as int)),
            reaped@ == ids(casualties(before.take(i as int))),
        decreases present - i,
    {
        let entity = pool.entity(i);
        proof {
            lemma_reap_step(before, i as int);
        }
        let ghost gone = casualties(before.take(i as int));
        match entity.kind {
            Kind::BounceBall { .. } if entity.position.y < FLOOR => {
                reaped.push(entity.id);
                assert(reaped@ =~= ids(gone.push(entity)));
            },
            _ => {
                kept.push(entity);
            },
        }
        i += 1;
    }
    proof {
        assert(before.take(present as int) =~= before);
        lemma_filter_ids_rise(before, |e: Entity| !out_of_bounds(e), pool.next_id());
        assert forall|k: int| 0 <= k < survivors(before).len() implies !out_of_bounds(
            #[trigger] survivors(before)[k],
        ) by {
            lemma_survivors_are_in_bounds(before, k);
        }
    }
    pool.entities = kept;
    reaped
}

} // verus!
