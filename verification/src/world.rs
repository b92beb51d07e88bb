//! The entity-component world: a table of slots keyed by entity identifier,
//! holding the heterogeneous per-entity component set, with typed access and
//! typed queries.
//!
//! An entity is an index plus a generation. A slot's generation is bumped
//! when its entity is despawned, so a stale handle can never name a later
//! occupant: validity demands the generations match, and generations only
//! grow. Removing an entity clears all of its components in the same call —
//! invalidation is atomic. A query never yields an entity lacking a live
//! component of the queried kind.

use vstd::prelude::*;

use crate::label::Label;
use crate::lua_api::lua_syntax_ok;
use crate::script::Script;
use crate::sprite::Sprite;
use crate::transform::{COORD_LIMIT, Position, Transform, TransformComponent};

verus! {

/// An opaque entity identifier: an index into the world's slot table and the
/// generation that index had when the entity was spawned.
#[derive(Clone, Copy, PartialEq, Eq, Structural, Debug)]
pub struct Entity {
    pub index: usize,
    pub generation: u64,
}

/// Why a world lookup failed.
#[derive(Clone, Copy, PartialEq, Eq, Structural, Debug)]
pub enum WorldError {
    /// The entity is unknown or stale: recoverable, checked by callers.
    EntityNotFound,
    /// The entity is live but lacks the requested component kind.
    ComponentNotFound,
}

/// One component, of any of the defined kinds.
pub enum Component {
    Label(Label),
    Transform(TransformComponent),
    Sprite(Sprite),
    Script(Script),
}

struct Slot {
    generation: u64,
    live: bool,
    label: Option<Label>,
    transform: Option<TransformComponent>,
    sprite: Option<Sprite>,
    script: Option<Script>,
}

/// The authoritative component store.
pub struct World {
    slots: Vec<Slot>,
    free: Vec<usize>,
}

impl World {
    /// Number of slots ever allocated (despawned slots are reused, with a
    /// fresh generation).
    pub closed spec fn num_slots(self) -> int {
        self.slots@.len() as int
    }

    /// Whether slot `i` currently holds a live entity.
    pub closed spec fn live(self, i: int) -> bool {
        self.slots@[i].live
    }

    /// The generation slot `i` is currently at.
    pub closed spec fn generation_of(self, i: int) -> u64 {
        self.slots@[i].generation
    }

    pub closed spec fn label_at(self, i: int) -> Option<Label> {
        self.slots@[i].label
    }

    pub closed spec fn transform_at(self, i: int) -> Option<TransformComponent> {
        self.slots@[i].transform
    }

    pub closed spec fn sprite_at(self, i: int) -> Option<Sprite> {
        self.slots@[i].sprite
    }

    pub closed spec fn script_at(self, i: int) -> Option<Script> {
        self.slots@[i].script
    }

    /// An entity handle is valid while its slot is live at its generation.
    pub open spec fn valid(self, e: Entity) -> bool {
        &&& (e.index as int) < self.num_slots()
        &&& self.live(e.index as int)
        &&& self.generation_of(e.index as int) == e.generation
    }

    /// The handle of the entity living in slot `i`.
    pub open spec fn entity_at(self, i: int) -> Entity {
        Entity { index: i as usize, generation: self.generation_of(i) }
    }

    pub open spec fn has_label(self, e: Entity) -> bool {
        self.valid(e) && self.label_at(e.index as int) is Some
    }

    pub open spec fn has_transform(self, e: Entity) -> bool {
        self.valid(e) && self.transform_at(e.index as int) is Some
    }

    pub open spec fn has_sprite(self, e: Entity) -> bool {
        self.valid(e) && self.sprite_at(e.index as int) is Some
    }

    pub open spec fn has_script(self, e: Entity) -> bool {
        self.valid(e) && self.script_at(e.index as int) is Some
    }

    /// The world's internal invariant: dead slots hold no components (an
    /// entity's components vanish atomically with it), live or reusable slots
    /// have room for one more generation, and the free list indexes dead,
    /// reusable slots without duplicates.
    pub closed spec fn wf(self) -> bool {
        &&& forall|i: int|
            0 <= i < self.slots@.len() && !self.slots@[i].live ==> {
                &&& #[trigger] self.slots@[i].label is None
                &&& self.slots@[i].transform is None
                &&& self.slots@[i].sprite is None
                &&& self.slots@[i].script is None
            }
        &&& forall|i: int|
            0 <= i < self.slots@.len() && self.slots@[i].live ==> (
            #[trigger] self.slots@[i].generation) < u64::MAX
        &&& forall|k: int|
            0 <= k < self.free@.len() ==> {
                &&& (#[trigger] self.free@[k] as int) < self.slots@.len()
                &&& !self.slots@[self.free@[k] as int].live
                &&& self.slots@[self.free@[k] as int].generation < u64::MAX
            }
        &&& forall|k1: int, k2: int|
            0 <= k1 < k2 < self.free@.len() ==> self.free@[k1] != self.free@[k2]
    }

    /// Slot `i` looks the same in both worlds: same occupancy, same
    /// generation, same components.
    pub open spec fn slot_unchanged(w1: World, w2: World, i: int) -> bool {
        &&& w2.live(i) == w1.live(i)
        &&& w2.generation_of(i) == w1.generation_of(i)
        &&& w2.label_at(i) == w1.label_at(i)
        &&& w2.transform_at(i) == w1.transform_at(i)
        &&& w2.sprite_at(i) == w1.sprite_at(i)
        &&& w2.script_at(i) == w1.script_at(i)
    }

    /// What a successful `insert` did: the slot keeps its occupancy and
    /// generation, the inserted kind is replaced by the payload, the other
    /// kinds at the slot stay as they were.
    pub open spec fn inserted(w1: World, w2: World, e: Entity, c: Component) -> bool {
        let i = e.index as int;
        &&& w2.live(i) == w1.live(i)
        &&& w2.generation_of(i) == w1.generation_of(i)
        &&& match c {
            Component::Label(l) => {
                &&& w2.label_at(i) == Some(l)
                &&& w2.transform_at(i) == w1.transform_at(i)
                &&& w2.sprite_at(i) == w1.sprite_at(i)
                &&& w2.script_at(i) == w1.script_at(i)
            },
            Component::Transform(t) => {
                &&& w2.label_at(i) == w1.label_at(i)
                &&& w2.transform_at(i) == Some(t)
                &&& w2.sprite_at(i) == w1.sprite_at(i)
                &&& w2.script_at(i) == w1.script_at(i)
            },
            Component::Sprite(s) => {
                &&& w2.label_at(i) == w1.label_at(i)
                &&& w2.transform_at(i) == w1.transform_at(i)
                &&& w2.sprite_at(i) == Some(s)
                &&& w2.script_at(i) == w1.script_at(i)
            },
            Component::Script(s) => {
                &&& w2.label_at(i) == w1.label_at(i)
                &&& w2.transform_at(i) == w1.transform_at(i)
                &&& w2.sprite_at(i) == w1.sprite_at(i)
                &&& w2.script_at(i) == Some(s)
            },
        }
    }

    /// An empty world.
    pub fn new() -> (w: World)
        ensures
            w.wf(),
            w.num_slots() == 0,
    {
        World { slots: Vec::new(), free: Vec::new() }
    }

    /// Whether the handle is (still) valid.
    pub fn contains(&self, e: Entity) -> (b: bool)
        ensures
            b == self.valid(e),
    {
        e.index < self.slots.len() && self.slots[e.index].live && self.slots[e.index].generation
            == e.generation
    }

    /// Spawns a fresh, componentless entity. The handle was not valid before
    /// the call (no stale handle is resurrected) and is valid after it; every
    /// other slot is untouched and no generation ever decreases.
    pub fn spawn(&mut self) -> (e: Entity)
        requires
            old(self).wf(),
        ensures
            final(self).wf(),
            final(self).valid(e),
            !old(self).valid(e),
            final(self).label_at(e.index as int) is None,
            final(self).transform_at(e.index as int) is None,
            final(self).sprite_at(e.index as int) is None,
            final(self).script_at(e.index as int) is None,
            old(self).num_slots() <= final(self).num_slots(),
            forall|i: int|
                0 <= i < old(self).num_slots() && i != e.index ==> World::slot_unchanged(
                    *old(self),
                    *final(self),
                    i,
                ),
            forall|i: int|
                0 <= i < old(self).num_slots() ==> old(self).generation_of(i) <= final(
                    self).generation_of(i),
            e.generation == final(self).generation_of(e.index as int),
    {
        match self.free.pop() {
            Some(i) => {
                let g = self.slots[i].generation;
                let slot = &mut self.slots[i];
                slot.live = true;
                Entity { index: i, generation: g }
            },
            None => {
                let i = self.slots.len();
                self.slots.push(
                    Slot {
                        generation: 0,
                        live: true,
                        label: None,
                        transform: None,
                        sprite: None,
                        script: None,
                    },
                );
                Entity { index: i, generation: 0 }
            },
        }
    }

    /// Attaches (or replaces) one component. Succeeds exactly on valid
    /// handles; on a stale or unknown handle the world is left untouched and
    /// the caller gets the error back.
    pub fn insert(&mut self, e: Entity, c: Component) -> (r: Result<(), WorldError>)
        requires
            old(self).wf(),
        ensures
            final(self).wf(),
            r is Ok <==> old(self).valid(e),
            r is Err ==> r == Result::<(), WorldError>::Err(WorldError::EntityNotFound)
                && *final(self) == *old(self),
            old(self).valid(e) ==> World::inserted(*old(self), *final(self), e, c),
            final(self).num_slots() == old(self).num_slots(),
            forall|i: int|
                0 <= i < old(self).num_slots() && i != e.index ==> World::slot_unchanged(
                    *old(self),
                    *final(self),
                    i,
                ),
            forall|e2: Entity| final(self).valid(e2) == old(self).valid(e2),
    {
        if !self.contains(e) {
            return Err(WorldError::EntityNotFound);
        }
        let slot = &mut self.slots[e.index];
        match c {
            Component::Label(l) => {
                slot.label = Some(l);
            },
            Component::Transform(t) => {
                slot.transform = Some(t);
            },
            Component::Sprite(s) => {
                slot.sprite = Some(s);
            },
            Component::Script(s) => {
                slot.script = Some(s);
            },
        }
        Ok(())
    }

    /// Removes an entity: all of its components are dropped in this one call
    /// and the handle is invalid from here on — the slot's generation is
    /// bumped, and generations never decrease, so no later spawn can make
    /// this handle valid again.
    pub fn despawn(&mut self, e: Entity) -> (r: Result<(), WorldError>)
        requires
            old(self).wf(),
        ensures
            final(self).wf(),
            r is Ok <==> old(self).valid(e),
            r is Err ==> r == Result::<(), WorldError>::Err(WorldError::EntityNotFound)
                && *final(self) == *old(self),
            old(self).valid(e) ==> !final(self).valid(e),
            old(self).valid(e) ==> final(self).label_at(e.index as int) is None,
            old(self).valid(e) ==> final(self).transform_at(e.index as int) is None,
            old(self).valid(e) ==> final(self).sprite_at(e.index as int) is None,
            old(self).valid(e) ==> final(self).script_at(e.index as int) is None,
            old(self).valid(e) ==> final(self).generation_of(e.index as int) == old(
                self).generation_of(e.index as int) + 1,
            final(self).num_slots() == old(self).num_slots(),
            forall|i: int|
                0 <= i < old(self).num_slots() && i != e.index ==> World::slot_unchanged(
                    *old(self),
                    *final(self),
                    i,
                ),
            forall|i: int|
                0 <= i < old(self).num_slots() ==> old(self).generation_of(i) <= final(
                    self).generation_of(i),
    {
        if !self.contains(e) {
            return Err(WorldError::EntityNotFound);
        }
        let g = self.slots[e.index].generation;
        let slot = &mut self.slots[e.index];
        slot.live = false;
        slot.label = None;
        slot.transform = None;
        slot.sprite = None;
        slot.script = None;
        slot.generation = g + 1;
        if g + 1 < u64::MAX {
            proof {
                assert forall|k: int| 0 <= k < self.free@.len() implies self.free@[k]
                    != e.index by {
                    assert(!old(self).slots@[self.free@[k] as int].live);
                }
            }
            self.free.push(e.index);
        }
        Ok(())
    }
}


/// The label an entity ends up with after a bundle is applied in order: the
/// bundle's last label, or the default where the bundle holds none.
pub open spec fn last_label(cs: Seq<Component>, dflt: Option<Label>) -> Option<Label>
    decreases cs.len(),
{
    if cs.len() == 0 {
        dflt
    } else {
        match cs.last() {
            Component::Label(l) => Some(l),
            _ => last_label(cs.drop_last(), dflt),
        }
    }
}

/// Same, for the transform kind.
pub open spec fn last_transform(cs: Seq<Component>, dflt: Option<TransformComponent>) -> Option<
    TransformComponent,
>
    decreases cs.len(),
{
    if cs.len() == 0 {
        dflt
    } else {
        match cs.last() {
            Component::Transform(t) => Some(t),
            _ => last_transform(cs.drop_last(), dflt),
        }
    }
}

/// Same, for the sprite kind.
pub open spec fn last_sprite(cs: Seq<Component>, dflt: Option<Sprite>) -> Option<Sprite>
    decreases cs.len(),
{
    if cs.len() == 0 {
        dflt
    } else {
        match cs.last() {
            Component::Sprite(sp) => Some(sp),
            _ => last_sprite(cs.drop_last(), dflt),
        }
    }
}

/// Same, for the script kind.
pub open spec fn last_script(cs: Seq<Component>, dflt: Option<Script>) -> Option<Script>
    decreases cs.len(),
{
    if cs.len() == 0 {
        dflt
    } else {
        match cs.last() {
            Component::Script(sc) => Some(sc),
            _ => last_script(cs.drop_last(), dflt),
        }
    }
}

impl World {
    /// Reads an entity's label. `Ok` exactly when the entity is valid and
    /// labelled; the error says which of the two failed.
    pub fn get_label(&self, e: Entity) -> (r: Result<Label, WorldError>)
        ensures
            r is Ok <==> self.has_label(e),
            r matches Ok(l) ==> self.label_at(e.index as int) == Some(l),
            r matches Err(err) ==> (err == WorldError::EntityNotFound <==> !self.valid(e)),
            r matches Err(err) ==> (err == WorldError::ComponentNotFound <==> self.valid(e)
                && self.label_at(e.index as int) is None),
    {
        if !self.contains(e) {
            return Err(WorldError::EntityNotFound);
        }
        match &self.slots[e.index].label {
            Some(l) => Ok(Label { label: l.label.clone(), id: l.id }),
            None => Err(WorldError::ComponentNotFound),
        }
    }

    /// Reads an entity's sprite (a copy of the shared texture handle).
    pub fn get_sprite(&self, e: Entity) -> (r: Result<Sprite, WorldError>)
        ensures
            r is Ok <==> self.has_sprite(e),
            r matches Ok(sp) ==> self.sprite_at(e.index as int) == Some(sp),
            r matches Err(err) ==> (err == WorldError::EntityNotFound <==> !self.valid(e)),
            r matches Err(err) ==> (err == WorldError::ComponentNotFound <==> self.valid(e)
                && self.sprite_at(e.index as int) is None),
    {
        if !self.contains(e) {
            return Err(WorldError::EntityNotFound);
        }
        match &self.slots[e.index].sprite {
            Some(sp) => Ok(*sp),
            None => Err(WorldError::ComponentNotFound),
        }
    }

    /// Borrows an entity's transform cell, the shared handle through which
    /// scripts and the renderer reach the same record.
    pub fn get_transform(&self, e: Entity) -> (r: Result<&TransformComponent, WorldError>)
        ensures
            r is Ok <==> self.has_transform(e),
            r matches Ok(c) ==> self.transform_at(e.index as int) == Some(*c),
            r matches Err(err) ==> (err == WorldError::EntityNotFound <==> !self.valid(e)),
            r matches Err(err) ==> (err == WorldError::ComponentNotFound <==> self.valid(e)
                && self.transform_at(e.index as int) is None),
    {
        if !self.contains(e) {
            return Err(WorldError::EntityNotFound);
        }
        match &self.slots[e.index].transform {
            Some(c) => Ok(c),
            None => Err(WorldError::ComponentNotFound),
        }
    }

    /// Locks an entity's transform cell and reads the whole record.
    pub fn transform_data(&self, e: Entity) -> (r: Result<Transform, WorldError>)
        ensures
            r is Ok <==> self.has_transform(e),
            r matches Ok(t) ==> (self.transform_at(e.index as int) matches Some(c) && t == c@
                && t.wf()),
    {
        match self.get_transform(e) {
            Ok(c) => Ok(c.lock_read()),
            Err(err) => Err(err),
        }
    }

    /// Locks an entity's transform cell and replaces the position, keeping
    /// the rotation: one whole-record write under the lock.
    pub fn set_position_of(&mut self, e: Entity, x: i64, y: i64) -> (r: Result<(), WorldError>)
        requires
            old(self).wf(),
            -COORD_LIMIT <= x <= COORD_LIMIT,
            -COORD_LIMIT <= y <= COORD_LIMIT,
        ensures
            final(self).wf(),
            r is Ok <==> old(self).has_transform(e),
            r is Err ==> *final(self) == *old(self),
            r is Ok ==> (old(self).transform_at(e.index as int) matches Some(c0) && final(
                self).transform_at(e.index as int) matches Some(c1) && c1@ == (Transform {
                position: Position { x, y },
                rotation: c0@.rotation,
            })),
            final(self).num_slots() == old(self).num_slots(),
            forall|i: int|
                0 <= i < old(self).num_slots() && i != e.index ==> World::slot_unchanged(
                    *old(self),
                    *final(self),
                    i,
                ),
            r is Ok ==> final(self).live(e.index as int) == old(self).live(e.index as int)
                && final(self).generation_of(e.index as int) == old(self).generation_of(
                e.index as int) && final(self).label_at(e.index as int) == old(self).label_at(e.index as int)
                && final(self).sprite_at(e.index as int) == old(self).sprite_at(e.index as int)
                && final(self).script_at(e.index as int) == old(self).script_at(e.index as int),
    {
        if !self.contains(e) {
            return Err(WorldError::EntityNotFound);
        }
        if self.slots[e.index].transform.is_none() {
            return Err(WorldError::ComponentNotFound);
        }
        let slot = &mut self.slots[e.index];
        match &mut slot.transform {
            Some(cell) => {
                cell.set_position(x, y);
                Ok(())
            },
            None => {
                proof {
                    assert(false);
                }
                Err(WorldError::ComponentNotFound)
            },
        }
    }

    /// Attaches a whole bundle, applied in order: per kind, the bundle's last
    /// component of that kind wins; kinds the bundle does not mention stay.
    pub fn insert_bundle(&mut self, e: Entity, components: Vec<Component>) -> (r: Result<
        (),
        WorldError,
    >)
        requires
            old(self).wf(),
        ensures
            final(self).wf(),
            r is Ok <==> old(self).valid(e),
            r is Err ==> r == Result::<(), WorldError>::Err(WorldError::EntityNotFound)
                && *final(self) == *old(self),
            old(self).valid(e) ==> final(self).label_at(e.index as int) == last_label(
                components@,
                old(self).label_at(e.index as int),
            ),
            old(self).valid(e) ==> final(self).transform_at(e.index as int) == last_transform(
                components@,
                old(self).transform_at(e.index as int),
            ),
            old(self).valid(e) ==> final(self).sprite_at(e.index as int) == last_sprite(
                components@,
                old(self).sprite_at(e.index as int),
            ),
            old(self).valid(e) ==> final(self).script_at(e.index as int) == last_script(
                components@,
                old(self).script_at(e.index as int),
            ),
            old(self).valid(e) ==> final(self).live(e.index as int) == old(self).live(
                e.index as int) && final(self).generation_of(e.index as int) == old(self).generation_of(
                e.index as int),
            final(self).num_slots() == old(self).num_slots(),
            forall|i: int|
                0 <= i < old(self).num_slots() && i != e.index ==> World::slot_unchanged(
                    *old(self),
                    *final(self),
                    i,
                ),
            forall|e2: Entity| final(self).valid(e2) == old(self).valid(e2),
    {
        if !self.contains(e) {
            return Err(WorldError::EntityNotFound);
        }
        let ghost all: Seq<Component> = components@;
        let mut cs = components;
        let ghost k: int = 0;
        while cs.len() > 0
            invariant
                self.wf(),
                self.valid(e),
                0 <= k <= all.len(),
                cs@ =~= all.skip(k),
                self.label_at(e.index as int) == last_label(
                    all.take(k),
                    old(self).label_at(e.index as int),
                ),
                self.transform_at(e.index as int) == last_transform(
                    all.take(k),
                    old(self).transform_at(e.index as int),
                ),
                self.sprite_at(e.index as int) == last_sprite(
                    all.take(k),
                    old(self).sprite_at(e.index as int),
                ),
                self.script_at(e.index as int) == last_script(
                    all.take(k),
                    old(self).script_at(e.index as int),
                ),
                self.live(e.index as int) == old(self).live(e.index as int),
                self.generation_of(e.index as int) == old(self).generation_of(e.index as int),
                self.num_slots() == old(self).num_slots(),
                forall|i: int|
                    0 <= i < old(self).num_slots() && i != e.index ==> World::slot_unchanged(
                        *old(self),
                        *self,
                        i,
                    ),
                forall|e2: Entity| self.valid(e2) == old(self).valid(e2),
            decreases cs@.len(),
        {
            let c = cs.remove(0);
            proof {
                assert(c == all[k]);
                assert(all.take(k + 1).drop_last() =~= all.take(k));
                assert(all.take(k + 1).last() == all[k]);
            }
            let ghost pre: World = *self;
            let _ = self.insert(e, c);
            proof {
                assert forall|i: int|
                    0 <= i < old(self).num_slots() && i != e.index implies World::slot_unchanged(
                    *old(self),
                    *self,
                    i,
                ) by {
                    assert(World::slot_unchanged(*old(self), pre, i));
                    assert(World::slot_unchanged(pre, *self, i));
                }
                k = k + 1;
            }
        }
        proof {
            assert(all.take(k) =~= all);
        }
        Ok(())
    }
}


impl World {
    /// The drawable query: every entity holding the full (Label, Sprite,
    /// Transform) triple, in slot order — the stable order both render passes
    /// walk. Every yielded entity is valid and holds all three components,
    /// and every such entity is yielded.
    pub fn drawables(&self) -> (r: Vec<Entity>)
        ensures
            forall|k: int|
                0 <= k < r@.len() ==> self.has_label(#[trigger] r@[k]) && self.has_sprite(r@[k])
                    && self.has_transform(r@[k]),
            forall|k1: int, k2: int| 0 <= k1 < k2 < r@.len() ==> r@[k1].index < r@[k2].index,
            forall|i: int|
                0 <= i < self.num_slots() && self.live(i) && self.label_at(i) is Some
                    && self.sprite_at(i) is Some && self.transform_at(i) is Some ==> r@.contains(
                    #[trigger] self.entity_at(i),
                ),
    {
        let mut r: Vec<Entity> = Vec::new();
        let mut i: usize = 0;
        while i < self.slots.len()
            invariant
                i <= self.slots@.len(),
                forall|k: int|
                    0 <= k < r@.len() ==> self.has_label(#[trigger] r@[k]) && self.has_sprite(
                        r@[k],
                    ) && self.has_transform(r@[k]),
                forall|k: int| 0 <= k < r@.len() ==> (#[trigger] r@[k].index as int) < i as int,
                forall|k1: int, k2: int| 0 <= k1 < k2 < r@.len() ==> r@[k1].index < r@[k2].index,
                forall|j: int|
                    0 <= j < i && self.live(j) && self.label_at(j) is Some && self.sprite_at(j)
                        is Some && self.transform_at(j) is Some ==> r@.contains(
                        #[trigger] self.entity_at(j),
                    ),
            decreases self.slots@.len() - i,
        {
            let s = &self.slots[i];
            if s.live && s.label.is_some() && s.sprite.is_some() && s.transform.is_some() {
                let e = Entity { index: i, generation: s.generation };
                let ghost prev = r@;
                r.push(e);
                proof {
                    assert forall|j: int|
                        0 <= j < i + 1 && self.live(j) && self.label_at(j) is Some
                            && self.sprite_at(j) is Some && self.transform_at(j)
                            is Some implies r@.contains(#[trigger] self.entity_at(j)) by {
                        if j == i as int {
                            assert(r@[prev.len() as int] == e);
                            assert(self.entity_at(j) == e);
                        } else {
                            assert(prev.contains(self.entity_at(j)));
                            let idx = choose|idx: int|
                                0 <= idx < prev.len() && prev[idx] == self.entity_at(j);
                            assert(r@[idx] == self.entity_at(j));
                        }
                    }
                }
            }
            i += 1;
        }
        r
    }

    /// The script query: every entity holding a script component, in slot
    /// order — the order one tick's script updates run in.
    pub fn scripted(&self) -> (r: Vec<Entity>)
        ensures
            forall|k: int| 0 <= k < r@.len() ==> self.has_script(#[trigger] r@[k]),
            forall|k1: int, k2: int| 0 <= k1 < k2 < r@.len() ==> r@[k1].index < r@[k2].index,
            forall|i: int|
                0 <= i < self.num_slots() && self.live(i) && self.script_at(i) is Some
                    ==> r@.contains(#[trigger] self.entity_at(i)),
    {
        let mut r: Vec<Entity> = Vec::new();
        let mut i: usize = 0;
        while i < self.slots.len()
            invariant
                i <= self.slots@.len(),
                forall|k: int| 0 <= k < r@.len() ==> self.has_script(#[trigger] r@[k]),
                forall|k: int| 0 <= k < r@.len() ==> (#[trigger] r@[k].index as int) < i as int,
                forall|k1: int, k2: int| 0 <= k1 < k2 < r@.len() ==> r@[k1].index < r@[k2].index,
                forall|j: int|
                    0 <= j < i && self.live(j) && self.script_at(j) is Some ==> r@.contains(
                        #[trigger] self.entity_at(j),
                    ),
            decreases self.slots@.len() - i,
        {
            let s = &self.slots[i];
            if s.live && s.script.is_some() {
                let e = Entity { index: i, generation: s.generation };
                let ghost prev = r@;
                r.push(e);
                proof {
                    assert forall|j: int|
                        0 <= j < i + 1 && self.live(j) && self.script_at(j)
                            is Some implies r@.contains(#[trigger] self.entity_at(j)) by {
                        if j == i as int {
                            assert(r@[prev.len() as int] == e);
                            assert(self.entity_at(j) == e);
                        } else {
                            assert(prev.contains(self.entity_at(j)));
                            let idx = choose|idx: int|
                                0 <= idx < prev.len() && prev[idx] == self.entity_at(j);
                            assert(r@[idx] == self.entity_at(j));
                        }
                    }
                }
            }
            i += 1;
        }
        r
    }

    /// What one successful script update did to slot `i`: everything but the
    /// script and the transform is untouched; the script keeps its source; a
    /// frozen (error-state) script stays exactly as it was; and the transform
    /// cell changes only when the script ran and succeeded, and then only its
    /// position.
    pub open spec fn script_ran(w1: World, w2: World, i: int) -> bool {
        &&& w2.live(i) == w1.live(i)
        &&& w2.generation_of(i) == w1.generation_of(i)
        &&& w2.label_at(i) == w1.label_at(i)
        &&& w2.sprite_at(i) == w1.sprite_at(i)
        &&& (w2.script_at(i) is Some) == (w1.script_at(i) is Some)
        &&& (w2.transform_at(i) is Some) == (w1.transform_at(i) is Some)
        &&& (w1.script_at(i) matches Some(s0) ==> (w2.script_at(i) matches Some(s1)
            && s1.source() == s0.source() && (s0.status() is Error ==> s1.status() == s0.status())
            && (w1.transform_at(i) is None ==> w2.transform_at(i) is None && (s0.status() is Error
                ==> s1 == s0)) && (w1.transform_at(i) matches Some(c0) ==> (w2.transform_at(i)
                matches Some(c1) && (s1.status() is Error ==> c1@ == c0@) && (s1.status() is Ready
                ==> c1@.rotation == c0@.rotation) && (s0.status() is Error ==> c1@ == c0@ && s1
                == s0)))))
    }

    /// Runs one entity's script update against the entity's own transform
    /// cell (or detached, when the entity has none). Succeeds exactly when
    /// the entity is valid and scripted; fails without any effect otherwise.
    pub fn run_script(&mut self, e: Entity, dt_ms: i64) -> (r: Result<(), WorldError>)
        requires
            old(self).wf(),
        ensures
            final(self).wf(),
            r is Ok <==> old(self).has_script(e),
            r is Err ==> *final(self) == *old(self),
            final(self).num_slots() == old(self).num_slots(),
            forall|i: int|
                0 <= i < old(self).num_slots() && i != e.index ==> World::slot_unchanged(
                    *old(self),
                    *final(self),
                    i,
                ),
            r is Ok ==> World::script_ran(*old(self), *final(self), e.index as int),
    {
        if !self.contains(e) {
            return Err(WorldError::EntityNotFound);
        }
        if self.slots[e.index].script.is_none() {
            return Err(WorldError::ComponentNotFound);
        }
        let slot = &mut self.slots[e.index];
        let mut script_opt: Option<Script> = None;
        core::mem::swap(&mut script_opt, &mut slot.script);
        let mut s = match script_opt {
            Some(s) => s,
            None => {
                proof {
                    assert(false);
                }
                return Err(WorldError::ComponentNotFound);
            },
        };
        match &mut slot.transform {
            Some(cell) => {
                s.update(dt_ms, cell);
            },
            None => {
                s.update_detached(dt_ms);
            },
        }
        slot.script = Some(s);
        Ok(())
    }

    /// Runs the script update of every live, scripted entity, in slot order.
    /// All of a tick's script updates complete in this one call, strictly
    /// before any render work the caller does afterwards.
    pub fn run_all_scripts(&mut self, dt_ms: i64)
        requires
            old(self).wf(),
        ensures
            final(self).wf(),
            final(self).num_slots() == old(self).num_slots(),
            forall|i: int|
                0 <= i < old(self).num_slots() ==> World::script_ran(*old(self), *final(self), i),
            forall|i: int|
                0 <= i < old(self).num_slots() && old(self).script_at(i) is None
                    ==> World::slot_unchanged(*old(self), *final(self), i),
    {
        let n = self.slots.len();
        let mut i: usize = 0;
        while i < n
            invariant
                self.wf(),
                old(self).wf(),
                n as int == old(self).num_slots(),
                self.num_slots() == n as int,
                i <= n,
                forall|j: int| i <= j < n ==> World::slot_unchanged(*old(self), *self, j),
                forall|j: int| 0 <= j < i ==> World::script_ran(*old(self), *self, j),
                forall|j: int|
                    0 <= j < i && old(self).script_at(j) is None ==> World::slot_unchanged(
                        *old(self),
                        *self,
                        j,
                    ),
            decreases n - i,
        {
            let s = &self.slots[i];
            if s.live && s.script.is_some() {
                let e = Entity { index: i, generation: s.generation };
                proof {
                    assert(World::slot_unchanged(*old(self), *self, i as int));
                    assert(self.has_script(e));
                }
                let ghost pre: World = *self;
                let res = self.run_script(e, dt_ms);
                proof {
                    assert(res is Ok);
                    assert forall|j: int| i + 1 <= j < n implies World::slot_unchanged(
                        *old(self),
                        *self,
                        j,
                    ) by {
                        assert(World::slot_unchanged(*old(self), pre, j));
                        assert(World::slot_unchanged(pre, *self, j));
                    }
                    assert forall|j: int| 0 <= j < i + 1 implies World::script_ran(
                        *old(self),
                        *self,
                        j,
                    ) by {
                        if j < i as int {
                            assert(World::script_ran(*old(self), pre, j));
                            assert(World::slot_unchanged(pre, *self, j));
                        } else {
                            assert(World::slot_unchanged(*old(self), pre, j));
                            assert(World::script_ran(pre, *self, j));
                        }
                    }
                    assert forall|j: int|
                        0 <= j < i + 1 && old(self).script_at(j) is None implies
                        World::slot_unchanged(*old(self), *self, j) by {
                        assert(World::slot_unchanged(pre, *self, j));
                        if j < i as int {
                            assert(World::slot_unchanged(*old(self), pre, j));
                        }
                    }
                }
            } else {
                proof {
                    assert(World::slot_unchanged(*old(self), *self, i as int));
                    assert(World::script_ran(*old(self), *self, i as int));
                }
            }
            i += 1;
        }
    }
}


impl World {
    /// Reads the source text of an entity's script.
    pub fn script_source(&self, e: Entity) -> (r: Result<String, WorldError>)
        ensures
            r is Ok <==> self.has_script(e),
            r matches Ok(src) ==> (self.script_at(e.index as int) matches Some(s) && src@
                == s.source()),
    {
        if !self.contains(e) {
            return Err(WorldError::EntityNotFound);
        }
        match &self.slots[e.index].script {
            Some(s) => Ok(s.get_script()),
            None => Err(WorldError::ComponentNotFound),
        }
    }

    /// The stored error message of an entity's script, if it is in the error
    /// state.
    pub fn script_error(&self, e: Entity) -> (r: Result<Option<String>, WorldError>)
        ensures
            r is Ok <==> self.has_script(e),
            r matches Ok(msg) ==> (self.script_at(e.index as int) matches Some(s) && (s.status()
                is Ready ==> msg is None) && (s.status() is Error ==> msg == Some(
                s.status()->Error_0,
            ))),
    {
        if !self.contains(e) {
            return Err(WorldError::EntityNotFound);
        }
        match &self.slots[e.index].script {
            Some(s) => Ok(s.last_error()),
            None => Err(WorldError::ComponentNotFound),
        }
    }

    /// Replaces an entity's script source, reloads it, and hands back the
    /// exact text for the embedding store to persist. Everything else in the
    /// world is untouched.
    pub fn set_script_of(&mut self, e: Entity, text: String) -> (r: Result<String, WorldError>)
        requires
            old(self).wf(),
        ensures
            final(self).wf(),
            r is Ok <==> old(self).has_script(e),
            r is Err ==> *final(self) == *old(self),
            final(self).num_slots() == old(self).num_slots(),
            forall|i: int|
                0 <= i < old(self).num_slots() && i != e.index ==> World::slot_unchanged(
                    *old(self),
                    *final(self),
                    i,
                ),
            r matches Ok(persist) ==> persist@ == text@,
            r is Ok ==> (final(self).script_at(e.index as int) matches Some(s1) && s1.source()
                == text@ && (!lua_syntax_ok(text@) ==> s1.status() is Error)),
            r is Ok ==> final(self).live(e.index as int) == old(self).live(e.index as int)
                && final(self).generation_of(e.index as int) == old(self).generation_of(
                e.index as int) && final(self).label_at(e.index as int) == old(self).label_at(
                e.index as int) && final(self).sprite_at(e.index as int) == old(self).sprite_at(
                e.index as int) && final(self).transform_at(e.index as int) == old(
                self).transform_at(e.index as int),
    {
        if !self.contains(e) {
            return Err(WorldError::EntityNotFound);
        }
        if self.slots[e.index].script.is_none() {
            return Err(WorldError::ComponentNotFound);
        }
        let slot = &mut self.slots[e.index];
        match &mut slot.script {
            Some(s) => Ok(s.set_script(text)),
            None => {
                proof {
                    assert(false);
                }
                Err(WorldError::ComponentNotFound)
            },
        }
    }
}


/// A stale handle stays invalid. `despawn` leaves the slot's generation
/// strictly above the handle's, and every mutation's contract lets slot
/// generations only grow — so in every later world state the generation still
/// exceeds the handle's, and validity demands they match.
pub proof fn lemma_stale_handle_never_valid(w: World, e: Entity)
    requires
        (e.index as int) < w.num_slots(),
        w.generation_of(e.index as int) > e.generation,
    ensures
        !w.valid(e),
{
}

} // verus!
