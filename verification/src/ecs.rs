//! Minimal spatial entity model: voxels and chunks of voxels.
//!
//! A world owns an ordered, append-only collection of entities. An entity is
//! either a single voxel, named by an opaque 64-bit identifier, or a chunk: a
//! non-empty ordered group of voxel identifiers treated as one spatial unit.
//! Nesting is flat by construction — a chunk holds voxel identifiers, never
//! other chunks.

use vstd::prelude::*;

verus! {

/// A tagged spatial entity.
#[derive(Debug, PartialEq, Eq)]
pub enum Entity {
    /// A single voxel, identified by an opaque 64-bit identifier; position
    /// and material encoding are an external concern.
    Voxel(u64),
    /// An ordered group of voxels kept as one spatial unit. Insertion order
    /// is significant (it may encode traversal or render order) and the
    /// group is never empty when built through [`World::spawn_chunk`].
    Chunk(Vec<u64>),
}

/// The mathematical shape of an [`Entity`]: the chunk payload as a sequence.
pub enum EntityModel {
    Voxel(u64),
    Chunk(Seq<u64>),
}

impl View for Entity {
    type V = EntityModel;

    open spec fn view(&self) -> EntityModel {
        match self {
            Entity::Voxel(id) => EntityModel::Voxel(*id),
            Entity::Chunk(voxels) => EntityModel::Chunk(voxels@),
        }
    }
}

impl DeepView for Entity {
    type V = EntityModel;

    open spec fn deep_view(&self) -> EntityModel {
        self.view()
    }
}

/// Why a spawn request was rejected.
#[derive(Clone, Copy, Debug, PartialEq, Eq, Structural)]
pub enum SpawnError {
    /// A chunk must group at least one voxel.
    EmptyChunk,
}

/// An ordered, append-only collection of entities with exclusive ownership
/// of its contents. Spawning returns a stable handle: the entity's position
/// in insertion order, usable for later lookup.
pub struct World {
    entities: Vec<Entity>,
}

impl View for World {
    type V = Seq<EntityModel>;

    closed spec fn view(&self) -> Seq<EntityModel> {
        self.entities.deep_view()
    }
}

/// Whether one entity satisfies the model's shape invariant: chunks group at
/// least one voxel.
pub open spec fn entity_wf(e: EntityModel) -> bool {
    match e {
        EntityModel::Voxel(_) => true,
        EntityModel::Chunk(voxels) => voxels.len() > 0,
    }
}

impl World {
    /// Every entity in the world is well-formed; spawning preserves this.
    pub open spec fn wf(self) -> bool {
        forall|i: int| 0 <= i < self@.len() ==> entity_wf(#[trigger] self@[i])
    }

    /// An empty world.
    pub fn new() -> (w: World)
        ensures
            w@ == Seq::<EntityModel>::empty(),
            w.wf(),
    {
        World { entities: Vec::new() }
    }

    /// How many entities have been spawned.
    pub fn len(&self) -> (n: usize)
        ensures
            n == self@.len(),
    {
        self.entities.len()
    }

    /// Appends a single voxel entity and returns its handle.
    pub fn spawn_voxel(&mut self, id: u64) -> (handle: usize)
        requires
            old(self).wf(),
        ensures
            final(self)@ == old(self)@.push(EntityModel::Voxel(id)),
            handle == old(self)@.len(),
            final(self).wf(),
    {
        let handle = self.entities.len();
        self.entities.push(Entity::Voxel(id));
        handle
    }

    /// Appends a chunk grouping `voxels` in the given order and returns its
    /// handle. An empty group is a caller error and is rejected, leaving the
    /// world unchanged.
    pub fn spawn_chunk(&mut self, voxels: Vec<u64>) -> (result: Result<usize, SpawnError>)
        requires
            old(self).wf(),
        ensures
            voxels@.len() == 0 ==> result == Err::<usize, SpawnError>(SpawnError::EmptyChunk)
                && *final(self) == *old(self),
            voxels@.len() > 0 ==> result == Ok::<usize, SpawnError>(old(self)@.len() as usize)
                && final(self)@ == old(self)@.push(EntityModel::Chunk(voxels@)),
            final(self).wf(),
    {
        if voxels.len() == 0 {
            return Err(SpawnError::EmptyChunk);
        }
        let handle = self.entities.len();
        let ghost prior = self@;
        let ghost vs = voxels@;
        self.entities.push(Entity::Chunk(voxels));
        proof {
            assert(self@ =~= prior.push(EntityModel::Chunk(vs)));
            assert forall|i: int| 0 <= i < self@.len() implies entity_wf(#[trigger] self@[i]) by {
                if i < prior.len() {
                    assert(entity_wf(prior[i]));
                }
            }
        }
        Ok(handle)
    }

    /// Looks an entity up by the handle its spawn call returned. Handles are
    /// stable: later spawns never move earlier entities.
    pub fn get(&self, handle: usize) -> (entity: Option<&Entity>)
        ensures
            match entity {
                Some(e) => handle < self@.len() && e.deep_view() == self@[handle as int],
                None => handle >= self@.len(),
            },
    {
        if handle < self.entities.len() {
            Some(&self.entities[handle])
        } else {
            None
        }
    }

    /// The entities in insertion order: a finite, restartable traversal over
    /// a consistent snapshot of the collection.
    pub fn iter(&self) -> (entities: &Vec<Entity>)
        ensures
            entities.deep_view() == self@,
    {
        &self.entities
    }
}

} // verus!
