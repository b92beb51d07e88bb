//! The frame orchestrator's core: the game manager owning the world, the
//! texture cache and the label allocator, the fixed order of one tick's
//! phases, and the tick function that runs every script update strictly
//! before the frame plan is built.

use vstd::prelude::*;

use crate::camera::{clamp_coord, clamp_scale, scale_delta, x_delta, y_delta};
use crate::label::{FIRST_LABEL_ID, Label, LabelIds};
use crate::render::{FramePlan, RenderState, draws_world};
use crate::texture_manager::TextureManager;
use crate::world::{Component, Entity, World};

verus! {

/// The phases of one host tick, in their fixed order: input dispatch, the
/// game-logic callback, script updates over all scripted entities, the camera
/// update, the color pass, the identity pass, the identity read-back copy,
/// the UI overlay, and the present.
#[derive(Clone, Copy, PartialEq, Eq, Structural, Debug)]
pub enum FramePhase {
    Input,
    GameLogic,
    ScriptUpdates,
    CameraUpdate,
    ColorPass,
    IdentityPass,
    Readback,
    UiOverlay,
    Present,
}

/// Where a phase stands in the tick's order.
pub open spec fn phase_rank(p: FramePhase) -> int {
    match p {
        FramePhase::Input => 0,
        FramePhase::GameLogic => 1,
        FramePhase::ScriptUpdates => 2,
        FramePhase::CameraUpdate => 3,
        FramePhase::ColorPass => 4,
        FramePhase::IdentityPass => 5,
        FramePhase::Readback => 6,
        FramePhase::UiOverlay => 7,
        FramePhase::Present => 8,
    }
}

impl FramePhase {
    /// The phase that follows: script updates complete strictly before the
    /// color pass, the color pass before the identity pass, the identity
    /// pass before the UI overlay, and all drawing before present; present
    /// hands over to the next tick's input.
    pub fn next(self) -> (q: FramePhase)
        ensures
            phase_rank(q) == (if self is Present {
                0int
            } else {
                phase_rank(self) + 1
            }),
    {
        match self {
            FramePhase::Input => FramePhase::GameLogic,
            FramePhase::GameLogic => FramePhase::ScriptUpdates,
            FramePhase::ScriptUpdates => FramePhase::CameraUpdate,
            FramePhase::CameraUpdate => FramePhase::ColorPass,
            FramePhase::ColorPass => FramePhase::IdentityPass,
            FramePhase::IdentityPass => FramePhase::Readback,
            FramePhase::Readback => FramePhase::UiOverlay,
            FramePhase::UiOverlay => FramePhase::Present,
            FramePhase::Present => FramePhase::Input,
        }
    }
}

/// Owns everything the game mutates: the world, the texture cache, and the
/// label id allocator (the one process-wide counter, held by the context that
/// creates game objects).
pub struct GameManager {
    pub texture_manager: TextureManager,
    pub world: World,
    pub label_ids: LabelIds,
}

impl GameManager {
    /// The label allocator's state, for contracts.
    pub open spec fn ids(self) -> LabelIds {
        self.label_ids
    }

    pub open spec fn wf(self) -> bool {
        &&& self.world.wf()
        &&& self.ids().wf()
    }

    /// An empty game: no entities, no textures, no ids issued.
    pub fn new() -> (gm: GameManager)
        ensures
            gm.wf(),
            gm.world.num_slots() == 0,
            gm.texture_manager@ == Map::<Seq<char>, crate::sprite::TextureRef>::empty(),
            gm.ids().issued() =~= Seq::<u32>::empty(),
            gm.ids().next_id() == FIRST_LABEL_ID,
    {
        GameManager {
            texture_manager: TextureManager::new(),
            world: World::new(),
            label_ids: LabelIds::new(),
        }
    }

    /// Spawns a named game object: a fresh entity holding only a label with
    /// the given text and the allocator's next id.
    pub fn add_object(&mut self, label: &str) -> (e: Entity)
        requires
            old(self).wf(),
            old(self).ids().next_id() < u32::MAX,
        ensures
            final(self).wf(),
            final(self).world.valid(e),
            !old(self).world.valid(e),
            (final(self).world.label_at(e.index as int) matches Some(l) && l.label@ == label@
                && l.id == old(self).ids().next_id() && l.id >= FIRST_LABEL_ID),
            final(self).world.transform_at(e.index as int) is None,
            final(self).world.sprite_at(e.index as int) is None,
            final(self).world.script_at(e.index as int) is None,
            final(self).ids().next_id() == old(self).ids().next_id() + 1,
            final(self).ids().issued() =~= old(self).ids().issued().push(
                old(self).ids().next_id(),
            ),
            final(self).texture_manager == old(self).texture_manager,
            old(self).world.num_slots() <= final(self).world.num_slots(),
            forall|i: int|
                0 <= i < old(self).world.num_slots() && i != e.index ==> World::slot_unchanged(
                    old(self).world,
                    final(self).world,
                    i,
                ),
    {
        let l = Label::from_str(label, &mut self.label_ids);
        let e = self.world.spawn();
        let ghost mid: World = self.world;
        let r = self.world.insert(e, Component::Label(l));
        proof {
            assert(r is Ok);
            assert forall|i: int|
                0 <= i < old(self).world.num_slots() && i != e.index implies World::slot_unchanged(
                old(self).world,
                self.world,
                i,
            ) by {
                assert(World::slot_unchanged(old(self).world, mid, i));
                assert(World::slot_unchanged(mid, self.world, i));
            }
        }
        e
    }

    /// Attaches one component to an existing object. The caller vouches for
    /// the handle: a stale one is a programming error here.
    pub fn add_component_to_object(&mut self, entity: Entity, component: Component)
        requires
            old(self).wf(),
            old(self).world.valid(entity),
        ensures
            final(self).wf(),
            World::inserted(old(self).world, final(self).world, entity, component),
            final(self).world.num_slots() == old(self).world.num_slots(),
            forall|i: int|
                0 <= i < old(self).world.num_slots() && i != entity.index
                    ==> World::slot_unchanged(old(self).world, final(self).world, i),
            forall|e2: Entity| final(self).world.valid(e2) == old(self).world.valid(e2),
            final(self).texture_manager == old(self).texture_manager,
            final(self).ids() == old(self).ids(),
    {
        let _ = self.world.insert(entity, component);
    }

    /// Attaches a bundle of components to an existing object, applied in
    /// order: per kind, the bundle's last component of that kind wins.
    pub fn add_components_to_object(&mut self, entity: Entity, components: Vec<Component>)
        requires
            old(self).wf(),
            old(self).world.valid(entity),
        ensures
            final(self).wf(),
            final(self).world.label_at(entity.index as int) == crate::world::last_label(
                components@,
                old(self).world.label_at(entity.index as int),
            ),
            final(self).world.transform_at(entity.index as int) == crate::world::last_transform(
                components@,
                old(self).world.transform_at(entity.index as int),
            ),
            final(self).world.sprite_at(entity.index as int) == crate::world::last_sprite(
                components@,
                old(self).world.sprite_at(entity.index as int),
            ),
            final(self).world.script_at(entity.index as int) == crate::world::last_script(
                components@,
                old(self).world.script_at(entity.index as int),
            ),
            final(self).world.num_slots() == old(self).world.num_slots(),
            forall|i: int|
                0 <= i < old(self).world.num_slots() && i != entity.index
                    ==> World::slot_unchanged(old(self).world, final(self).world, i),
            forall|e2: Entity| final(self).world.valid(e2) == old(self).world.valid(e2),
            final(self).texture_manager == old(self).texture_manager,
            final(self).ids() == old(self).ids(),
    {
        let _ = self.world.insert_bundle(entity, components);
    }
}

/// One host tick's verified core, in the fixed order: every scripted
/// entity's update runs first (over the whole world, in slot order), then the
/// camera integrates its controller, and only then is the frame plan built —
/// so both passes draw the post-script transforms, and the read-back request
/// reflects the tick's cursor position.
pub fn tick(gm: &mut GameManager, rs: &mut RenderState, dt_ms: i64) -> (plan: FramePlan)
    requires
        old(gm).wf(),
        old(rs).wf(),
        0 <= dt_ms <= 1_000_000,
    ensures
        final(gm).wf(),
        final(rs).wf(),
        final(gm).world.num_slots() == old(gm).world.num_slots(),
        forall|i: int|
            0 <= i < old(gm).world.num_slots() ==> World::script_ran(
                old(gm).world,
                final(gm).world,
                i,
            ),
        forall|i: int|
            0 <= i < old(gm).world.num_slots() && old(gm).world.script_at(i) is None
                ==> World::slot_unchanged(old(gm).world, final(gm).world, i),
        final(gm).texture_manager == old(gm).texture_manager,
        final(gm).ids() == old(gm).ids(),
        draws_world(final(gm).world, plan.entities@, plan.color_pass@),
        draws_world(final(gm).world, plan.entities@, plan.identity_pass@),
        forall|k: int|
            0 <= k < plan.entities@.len() ==> final(gm).world.has_label(#[trigger] plan.entities@[k])
                && final(gm).world.has_sprite(plan.entities@[k]) && final(gm).world.has_transform(
                plan.entities@[k],
            ),
        forall|i: int|
            0 <= i < final(gm).world.num_slots() && final(gm).world.live(i) && final(gm).world.label_at(i) is Some && final(gm).world.sprite_at(i) is Some && final(gm).world.transform_at(i) is Some ==> plan.entities@.contains(
                #[trigger] final(gm).world.entity_at(i),
            ),
        plan.identity_pass@.len() == plan.color_pass@.len(),
        forall|k: int|
            0 <= k < plan.color_pass@.len() ==> (#[trigger] plan.identity_pass@[k]).id
                == plan.color_pass@[k].id,
        final(rs).cursor_in_bounds() ==> plan.readback == Some(
            (final(rs).mouse_x as u32, final(rs).mouse_y as u32),
        ),
        !final(rs).cursor_in_bounds() ==> plan.readback is None,
        final(rs).camera.x_spec() == clamp_coord(
            old(rs).camera.x_spec() + x_delta(
                old(rs).camera_controller,
                old(rs).camera.speed_spec() * dt_ms,
            ),
        ),
        final(rs).camera.y_spec() == clamp_coord(
            old(rs).camera.y_spec() + y_delta(
                old(rs).camera_controller,
                old(rs).camera.speed_spec() * dt_ms,
            ),
        ),
        final(rs).camera.scale_spec() == clamp_scale(
            old(rs).camera.scale_spec() + scale_delta(old(rs).camera_controller),
        ),
        final(rs).mouse_x == old(rs).mouse_x,
        final(rs).mouse_y == old(rs).mouse_y,
        final(rs).width == old(rs).width,
        final(rs).height == old(rs).height,
{
    gm.world.run_all_scripts(dt_ms);
    rs.update(dt_ms);
    rs.plan_frame(&gm.world)
}

} // verus!
