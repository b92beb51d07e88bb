//! The dual-pass renderer's verifiable core: per-frame draw-list planning for
//! the color pass and the identity pass, the cursor-bounded read-back
//! decision, the row-alignment arithmetic of the read-back buffer, the
//! resolution of a read-back texel to an entity id, and a model of what the
//! opaque identity pass leaves at a pixel (last drawn wins).
//!
//! The GPU executes the plan; everything that decides *what* is drawn, with
//! which matrix and id, and what a picked texel means, is verified here.

use vstd::prelude::*;

use crate::camera::{Camera, CameraController, InputEvent};
use crate::label::FIRST_LABEL_ID;
use crate::sprite::TextureRef;
use crate::transform::Affine2;
use crate::world::World;

verus! {

/// The id the identity target is cleared to: below `FIRST_LABEL_ID`, so it
/// can never collide with a drawn entity.
pub const NO_PICK_ID: u32 = 0;

/// A texel of the identity target takes four bytes (an 8-bit integer-format
/// RGBA value whose low byte carries the id's low byte).
pub const TEXEL_BYTES: u64 = 4;

/// One draw call's data, identical for both passes: the model matrix, the
/// texture to sample, and the drawing entity's numeric id (used only by the
/// identity pass).
#[derive(Clone, Copy, PartialEq, Eq, Structural, Debug)]
pub struct DrawCmd {
    pub id: u32,
    pub texture: TextureRef,
    pub matrix: Affine2,
}

/// One frame's plan: the color pass and the identity pass, each built from
/// its own walk over the same query (the transforms are locked once per
/// pass), and the read-back request for the cursor's texel, present exactly
/// when the cursor is inside the surface.
pub struct FramePlan {
    pub entities: Vec<crate::world::Entity>,
    pub color_pass: Vec<DrawCmd>,
    pub identity_pass: Vec<DrawCmd>,
    pub readback: Option<(u32, u32)>,
}

/// What one pass draws for `entities[k]`: the entity's label id, its sprite's
/// texture, and the matrix of its transform as locked during this pass.
pub open spec fn draws_world(w: World, entities: Seq<crate::world::Entity>, cmds: Seq<DrawCmd>) -> bool {
    &&& cmds.len() == entities.len()
    &&& forall|k: int|
        0 <= k < entities.len() ==> {
            &&& (w.label_at(entities[k].index as int) matches Some(l) ==> (#[trigger] cmds[k]).id
                == l.id)
            &&& (w.sprite_at(entities[k].index as int) matches Some(sp) ==> cmds[k].texture
                == sp.texture)
            &&& (w.transform_at(entities[k].index as int) matches Some(c) ==> cmds[k].matrix
                == c@.mat_spec())
        }
}

/// Builds one pass's draw list: for each queried entity, lock its transform,
/// compute the model matrix, and package it with the texture and the label id.
pub fn draw_list(w: &World, entities: &Vec<crate::world::Entity>) -> (cmds: Vec<DrawCmd>)
    requires
        forall|k: int|
            0 <= k < entities@.len() ==> w.has_label(#[trigger] entities@[k]) && w.has_sprite(
                entities@[k],
            ) && w.has_transform(entities@[k]),
    ensures
        draws_world(*w, entities@, cmds@),
{
    let mut cmds: Vec<DrawCmd> = Vec::new();
    let mut k: usize = 0;
    while k < entities.len()
        invariant
            k <= entities@.len(),
            cmds@.len() == k,
            forall|k2: int|
                0 <= k2 < entities@.len() ==> w.has_label(#[trigger] entities@[k2]) && w.has_sprite(
                    entities@[k2],
                ) && w.has_transform(entities@[k2]),
            forall|k2: int|
                0 <= k2 < k ==> {
                    &&& (w.label_at(entities@[k2].index as int) matches Some(l) ==> (
                    #[trigger] cmds@[k2]).id == l.id)
                    &&& (w.sprite_at(entities@[k2].index as int) matches Some(sp)
                        ==> cmds@[k2].texture == sp.texture)
                    &&& (w.transform_at(entities@[k2].index as int) matches Some(c)
                        ==> cmds@[k2].matrix == c@.mat_spec())
                },
        decreases entities@.len() - k,
    {
        let e = entities[k];
        let label = match w.get_label(e) {
            Ok(l) => l,
            Err(_) => {
                proof {
                    assert(false);
                }
                unreached()
            },
        };
        let sprite = match w.get_sprite(e) {
            Ok(sp) => sp,
            Err(_) => {
                proof {
                    assert(false);
                }
                unreached()
            },
        };
        let cell = match w.get_transform(e) {
            Ok(c) => c,
            Err(_) => {
                proof {
                    assert(false);
                }
                unreached()
            },
        };
        let t = cell.lock_read();
        let m = t.to_mat();
        cmds.push(DrawCmd { id: label.id, texture: sprite.texture, matrix: m });
        k = k + 1;
    }
    cmds
}

/// The renderer's own state between frames: camera, its controller, the
/// surface size, and the last known cursor position.
pub struct RenderState {
    pub camera: Camera,
    pub camera_controller: CameraController,
    pub width: u32,
    pub height: u32,
    pub mouse_x: i64,
    pub mouse_y: i64,
}

impl RenderState {
    pub open spec fn wf(self) -> bool {
        &&& self.camera.wf()
        &&& self.height >= 1
    }

    /// Whether the last known cursor position lies inside the surface.
    pub open spec fn cursor_in_bounds(self) -> bool {
        0 <= self.mouse_x < self.width as int && 0 <= self.mouse_y < self.height as int
    }

    pub fn new(width: u32, height: u32, camera_speed: i64) -> (rs: RenderState)
        requires
            height >= 1,
            0 <= camera_speed <= 1_000_000,
        ensures
            rs.wf(),
            rs.width == width,
            rs.height == height,
            rs.mouse_x == 0,
            rs.mouse_y == 0,
    {
        RenderState {
            camera: Camera::new(width, height, camera_speed),
            camera_controller: CameraController::new(),
            width,
            height,
            mouse_x: 0,
            mouse_y: 0,
        }
    }

    /// A resize reconfigures the surface size and adopts the new aspect
    /// ratio; no frame is dropped — the next plan simply uses the new bounds.
    pub fn resize(&mut self, width: u32, height: u32)
        requires
            old(self).wf(),
            height >= 1,
        ensures
            final(self).wf(),
            final(self).width == width,
            final(self).height == height,
            final(self).camera.aspect_spec() == crate::camera::aspect_of(width, height),
            final(self).camera.x_spec() == old(self).camera.x_spec(),
            final(self).camera.y_spec() == old(self).camera.y_spec(),
            final(self).camera.scale_spec() == old(self).camera.scale_spec(),
            final(self).mouse_x == old(self).mouse_x,
            final(self).mouse_y == old(self).mouse_y,
            final(self).camera_controller == old(self).camera_controller,
    {
        self.width = width;
        self.height = height;
        self.camera.set_aspect(width, height);
    }

    /// Folds one window event into the renderer state: cursor motion updates
    /// the picking position, key events feed the camera controller. Returns
    /// whether the event was consumed by the controller.
    pub fn input(&mut self, event: &InputEvent) -> (r: bool)
        requires
            old(self).wf(),
        ensures
            final(self).wf(),
            final(self).width == old(self).width,
            final(self).height == old(self).height,
            final(self).camera == old(self).camera,
            (*event matches InputEvent::CursorMoved { x, y } ==> final(self).mouse_x == x && final(self).mouse_y == y && final(self).camera_controller == old(self).camera_controller && !r),
            (*event matches InputEvent::Keyboard { key, pressed } ==> final(self).camera_controller == crate::camera::controller_after(
                old(self).camera_controller,
                key,
                pressed,
            ) && final(self).mouse_x == old(self).mouse_x && final(self).mouse_y == old(self).mouse_y && r == (key != crate::camera::Key::Other)),
    {
        match *event {
            InputEvent::CursorMoved { x, y } => {
                self.mouse_x = x;
                self.mouse_y = y;
                false
            },
            _ => self.camera_controller.process_events(event),
        }
    }

    /// Integrates the held keys into the camera, once per frame.
    pub fn update(&mut self, dt_ms: i64)
        requires
            old(self).wf(),
            0 <= dt_ms <= 1_000_000,
        ensures
            final(self).wf(),
            final(self).camera.x_spec() == crate::camera::clamp_coord(
                old(self).camera.x_spec() + crate::camera::x_delta(
                    old(self).camera_controller,
                    old(self).camera.speed_spec() * dt_ms,
                ),
            ),
            final(self).camera.y_spec() == crate::camera::clamp_coord(
                old(self).camera.y_spec() + crate::camera::y_delta(
                    old(self).camera_controller,
                    old(self).camera.speed_spec() * dt_ms,
                ),
            ),
            final(self).camera.scale_spec() == crate::camera::clamp_scale(
                old(self).camera.scale_spec() + crate::camera::scale_delta(
                    old(self).camera_controller,
                ),
            ),
            final(self).camera_controller == old(self).camera_controller,
            final(self).width == old(self).width,
            final(self).height == old(self).height,
            final(self).mouse_x == old(self).mouse_x,
            final(self).mouse_y == old(self).mouse_y,
    {
        let controller = self.camera_controller;
        controller.update_camera(&mut self.camera, dt_ms);
    }

    /// The read-back request for this frame: exactly the one texel at the
    /// last known cursor position, and only when that position is inside the
    /// surface bounds.
    pub fn readback_pos(&self) -> (r: Option<(u32, u32)>)
        ensures
            self.cursor_in_bounds() ==> r == Some(
                (self.mouse_x as u32, self.mouse_y as u32),
            ),
            !self.cursor_in_bounds() ==> r is None,
    {
        if 0 <= self.mouse_x && self.mouse_x < self.width as i64 && 0 <= self.mouse_y
            && self.mouse_y < self.height as i64 {
            Some((self.mouse_x as u32, self.mouse_y as u32))
        } else {
            None
        }
    }

    /// Plans one frame from the world: the drawable query feeds both passes,
    /// each pass locking the transforms in its own walk, and the read-back is
    /// decided by the cursor. The identity pass draws the same entities in
    /// the same order as the color pass, with their label ids.
    pub fn plan_frame(&self, w: &World) -> (plan: FramePlan)
        ensures
            forall|k: int|
                0 <= k < plan.entities@.len() ==> w.has_label(#[trigger] plan.entities@[k])
                    && w.has_sprite(plan.entities@[k]) && w.has_transform(plan.entities@[k]),
            forall|k1: int, k2: int|
                0 <= k1 < k2 < plan.entities@.len() ==> plan.entities@[k1].index
                    < plan.entities@[k2].index,
            forall|i: int|
                0 <= i < w.num_slots() && w.live(i) && w.label_at(i) is Some && w.sprite_at(i)
                    is Some && w.transform_at(i) is Some ==> plan.entities@.contains(
                    #[trigger] w.entity_at(i),
                ),
            draws_world(*w, plan.entities@, plan.color_pass@),
            draws_world(*w, plan.entities@, plan.identity_pass@),
            plan.identity_pass@.len() == plan.color_pass@.len(),
            forall|k: int|
                0 <= k < plan.color_pass@.len() ==> (#[trigger] plan.identity_pass@[k]).id
                    == plan.color_pass@[k].id && plan.identity_pass@[k].texture
                    == plan.color_pass@[k].texture,
            self.cursor_in_bounds() ==> plan.readback == Some(
                (self.mouse_x as u32, self.mouse_y as u32),
            ),
            !self.cursor_in_bounds() ==> plan.readback is None,
    {
        let entities = w.drawables();
        let color_pass = draw_list(w, &entities);
        let identity_pass = draw_list(w, &entities);
        FramePlan { entities, color_pass, identity_pass, readback: self.readback_pos() }
    }
}

/// Rounds `bytes` up to the next multiple of `align`: the size of the
/// read-back buffer must respect the backend's row-pitch alignment, not just
/// the texel size.
pub fn align_up(bytes: u64, align: u64) -> (r: u64)
    requires
        1 <= align,
        bytes + align <= u64::MAX,
    ensures
        r % align == 0,
        bytes <= r < bytes + align,
{
    let rem = bytes % align;
    if rem == 0 {
        proof {
            assert(bytes % align == 0);
        }
        bytes
    } else {
        proof {
            assert(bytes % align <= bytes) by (nonlinear_arith)
                requires
                    align >= 1,
                    bytes >= 0,
            ;
        }
        let r = bytes - rem + align;
        proof {
            vstd::arithmetic::div_mod::lemma_fundamental_div_mod(bytes as int, align as int);
            assert((bytes - rem) == align * (bytes as int / align as int));
            vstd::arithmetic::div_mod::lemma_mod_multiples_vanish(
                (bytes as int / align as int) + 1,
                0,
                align as int,
            );
            assert((align * ((bytes as int / align as int) + 1)) % (align as int) == 0);
            assert(r == align * ((bytes as int / align as int) + 1)) by (nonlinear_arith)
                requires
                    r == bytes - rem + align,
                    bytes - rem == align * (bytes as int / align as int),
            ;
        }
        r
    }
}

/// The byte size of the one-texel read-back buffer under the given row
/// alignment.
pub fn readback_buffer_size(row_alignment: u64) -> (r: u64)
    requires
        1 <= row_alignment <= 1_000_000_000,
    ensures
        r % row_alignment == 0,
        TEXEL_BYTES <= r < TEXEL_BYTES + row_alignment,
{
    align_up(TEXEL_BYTES, row_alignment)
}

/// Resolves a mapped read-back buffer to the picked id: the first byte is the
/// low byte of the id, which identifies it because ids are drawn from a dense
/// low range.
pub fn resolve_pick(texel: &Vec<u8>) -> (id: u8)
    requires
        texel@.len() >= 1,
    ensures
        id == texel@[0],
{
    texel[0]
}

/// Whether a picked id names an entity: everything below the first
/// assignable label id means "nothing picked".
pub fn is_picked(id: u8) -> (b: bool)
    ensures
        b == (id as u32 >= FIRST_LABEL_ID),
{
    id as u32 >= FIRST_LABEL_ID
}

} // verus!
