//! The shared pool of entities.
//!
//! Every entity has an identifier that is never reused. The pool keeps its
//! entities in the order in which they were created, so identifiers rise
//! along it.
use crate::kinematics::Position;
use crate::kinematics::Velocity;
use vstd::prelude::*;

verus! {

/// What an entity is, with the state that only that kind has.
#[derive(Clone, Copy, Debug, PartialEq, Eq, Structural)]
pub enum Kind {
    /// A fixed place where balls appear.
    Spawner,
    /// The ground plane; nothing in the simulation reads it.
    Ground,
    /// A falling ball.
    BounceBall { velocity: Velocity },
}

/// One entity of the pool.
#[derive(Clone, Copy, Debug, PartialEq, Eq, Structural)]
pub struct Entity {
    pub id: u64,
    pub position: Position,
    pub kind: Kind,
}

/// Identifiers rise strictly along `entities` and stay below `bound`.
pub open spec fn ids_rise(entities: Seq<Entity>, bound: nat) -> bool {
    &&& forall|i: int, j: int|
        0 <= i < j < entities.len() ==> (#[trigger] entities[i]).id < (#[trigger] entities[j]).id
    &&& forall|i: int| 0 <= i < entities.len() ==> (#[trigger] entities[i]).id < bound
}

/// The identifiers of `entities`, in order.
pub open spec fn ids(entities: Seq<Entity>) -> Seq<u64> {
    entities.map_values(|e: Entity| e.id)
}

/// Every entity that a filter keeps was in the sequence it was taken from.
pub proof fn lemma_filtered_was_present(entities: Seq<Entity>, keep: spec_fn(Entity) -> bool, k: int)
    requires
        0 <= k < entities.filter(keep).len(),
    ensures
        entities.contains(entities.filter(keep)[k]),
        keep(entities.filter(keep)[k]),
    decreases entities.len(),
{
    reveal(Seq::filter);
    if entities.len() > 0 {
        let front = entities.drop_last();
        if k < front.filter(keep).len() {
            lemma_filtered_was_present(front, keep, k);
            let j = choose|j: int| 0 <= j < front.len() && front[j] == front.filter(keep)[k];
            assert(entities[j] == entities.filter(keep)[k]);
        } else {
            assert(entities[entities.len() - 1] == entities.filter(keep)[k]);
        }
    }
}

/// Filtering leaves the identifiers rising and below the same bound.
pub proof fn lemma_filter_ids_rise(entities: Seq<Entity>, keep: spec_fn(Entity) -> bool, bound: nat)
    requires
        ids_rise(entities, bound),
    ensures
        ids_rise(entities.filter(keep), bound),
    decreases entities.len(),
{
    reveal(Seq::filter);
    if entities.len() > 0 {
        let front = entities.drop_last();
        let last = entities.last();
        assert(ids_rise(front, last.id as nat)) by {
            assert forall|i: int| 0 <= i < front.len() implies (#[trigger] front[i]).id
                < last.id by {
                assert(front[i] == entities[i]);
            }
            assert forall|i: int, j: int| 0 <= i < j < front.len() implies (#[trigger] front[i]).id
                < (#[trigger] front[j]).id by {
                assert(front[i] == entities[i]);
                assert(front[j] == entities[j]);
            }
        }
        lemma_filter_ids_rise(front, keep, last.id as nat);
    }
}

/// The pool: the live entities and the next identifier to give out.
pub struct Pool {
    pub(crate) entities: Vec<Entity>,
    pub(crate) next_id: u64,
}

impl View for Pool {
    type V = Seq<Entity>;

    /// The live entities, oldest first.
    open(crate) spec fn view(&self) -> Seq<Entity> {
        self.entities@
    }
}

impl Pool {
    /// The identifier that the next entity will get.
    pub open(crate) spec fn next_id(&self) -> nat {
        self.next_id as nat
    }

    /// No identifier occurs twice, and none that is in use will be given out again.
    pub open(crate) spec fn wf(&self) -> bool {
        ids_rise(self@, self.next_id())
    }

    /// How many more entities the pool can ever create.
    pub open spec fn spare(&self) -> nat {
        (u64::MAX - self.next_id()) as nat
    }

    /// An empty pool.
    pub fn new() -> (pool: Pool)
        ensures
            pool.wf(),
            pool@ == Seq::<Entity>::empty(),
            pool.next_id() == 0,
    {
        Pool { entities: Vec::new(), next_id: 0 }
    }

    /// The number of live entities.
    pub fn len(&self) -> (n: usize)
        ensures
            n == self@.len(),
    {
        self.entities.len()
    }

    /// The entity at a place in the pool, counted from the oldest.
    pub fn entity(&self, index: usize) -> (entity: Entity)
        requires
            index < self@.len(),
        ensures
            entity == self@[index as int],
    {
        self.entities[index]
    }

    /// The entity with a given identifier, if it is in the pool.
    pub fn get(&self, id: u64) -> (found: Option<Entity>)
        ensures
            match found {
                Some(entity) => entity.id == id && self@.contains(entity),
                None => forall|k: int| 0 <= k < self@.len() ==> (#[trigger] self@[k]).id != id,
            },
    {
        let mut i: usize = 0;
        while i < self.entities.len()
            invariant
                i <= self@.len(),
                forall|k: int| 0 <= k < i ==> (#[trigger] self@[k]).id != id,
            decreases self@.len() - i,
        {
            if self.entities[i].id == id {
                return Some(self.entities[i]);
            }
            i += 1;
        }
        None
    }

    /// How many more entities the pool can ever create.
    pub fn spare_ids(&self) -> (n: u64)
        ensures
            n == self.spare(),
    {
        u64::MAX - self.next_id
    }

    /// Creates an entity and returns its identifier.
    pub fn spawn(&mut self, position: Position, kind: Kind) -> (id: u64)
        requires
            old(self).wf(),
            old(self).spare() > 0,
        ensures
            final(self).wf(),
            id == old(self).next_id(),
            final(self).next_id() == old(self).next_id() + 1,
            final(self)@ == old(self)@.push(Entity { id, position, kind }),
    {
        let id = self.next_id;
        self.entities.push(Entity { id, position, kind });
        self.next_id = id + 1;
        id
    }
}

} // verus!
