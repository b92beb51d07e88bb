//! The orthographic camera and its keyboard controller.
//!
//! The camera lives in the same fixed-point world coordinates as transforms.
//! The controller accumulates WASD/arrow and plus/minus key state from window
//! events and integrates it into camera position and zoom once per frame,
//! scaled by the elapsed milliseconds; position and zoom saturate at their
//! bounds instead of overflowing.

use vstd::prelude::*;

use crate::transform::{COORD_LIMIT, FX_ONE};

verus! {

/// The zoom bound: scale saturates here.
pub const SCALE_LIMIT: i64 = 1_000_000_000;

/// The aspect-ratio bound, in thousandths.
pub const ASPECT_LIMIT: u64 = 1_000_000;

/// How much one frame of a held plus/minus key changes the zoom
/// (one hundredth of a unit).
pub const SCALE_STEP: i64 = 10;

/// The physical keys the engine reads.
#[derive(Clone, Copy, PartialEq, Eq, Structural, Debug)]
pub enum Key {
    W,
    A,
    S,
    D,
    ArrowUp,
    ArrowDown,
    ArrowLeft,
    ArrowRight,
    Plus,
    Minus,
    Other,
}

/// A window event, as the engine models the presentation layer's events.
#[derive(Clone, Copy, PartialEq, Eq, Structural, Debug)]
pub enum InputEvent {
    Keyboard { key: Key, pressed: bool },
    CursorMoved { x: i64, y: i64 },
    MouseLeftPressed,
    RedrawRequested,
    Resized { width: u32, height: u32 },
    CloseRequested,
    Other,
}

/// The orthographic camera: centered on a position, with a zoom and the
/// surface's aspect ratio (in thousandths).
pub struct Camera {
    x: i64,
    y: i64,
    speed: i64,
    aspect_milli: u64,
    scale: i64,
}

/// Clamps a coordinate into the world bounds.
pub open spec fn clamp_coord(v: int) -> int {
    if v > COORD_LIMIT {
        COORD_LIMIT as int
    } else if v < -COORD_LIMIT {
        -COORD_LIMIT as int
    } else {
        v
    }
}

/// Clamps a zoom value into its bounds.
pub open spec fn clamp_scale(v: int) -> int {
    if v > SCALE_LIMIT {
        SCALE_LIMIT as int
    } else if v < -SCALE_LIMIT {
        -SCALE_LIMIT as int
    } else {
        v
    }
}

/// The aspect ratio (in thousandths) of a surface, capped at `ASPECT_LIMIT`.
pub open spec fn aspect_of(width: u32, height: u32) -> u64 {
    let a = (width * 1000) as u64 / height as u64;
    if a > ASPECT_LIMIT {
        ASPECT_LIMIT
    } else {
        a
    }
}

impl Camera {
    pub closed spec fn x_spec(self) -> i64 {
        self.x
    }

    pub closed spec fn y_spec(self) -> i64 {
        self.y
    }

    pub closed spec fn speed_spec(self) -> i64 {
        self.speed
    }

    pub closed spec fn aspect_spec(self) -> u64 {
        self.aspect_milli
    }

    pub closed spec fn scale_spec(self) -> i64 {
        self.scale
    }

    pub open spec fn wf(self) -> bool {
        &&& -COORD_LIMIT <= self.x_spec() <= COORD_LIMIT
        &&& -COORD_LIMIT <= self.y_spec() <= COORD_LIMIT
        &&& 0 <= self.speed_spec() <= 1_000_000
        &&& self.aspect_spec() <= ASPECT_LIMIT
        &&& -SCALE_LIMIT <= self.scale_spec() <= SCALE_LIMIT
    }

    /// A camera at the origin with unit zoom, looking at a surface of the
    /// given size. `speed` is in fixed-point steps per millisecond.
    pub fn new(width: u32, height: u32, speed: i64) -> (c: Camera)
        requires
            height >= 1,
            0 <= speed <= 1_000_000,
        ensures
            c.wf(),
            c.x_spec() == 0,
            c.y_spec() == 0,
            c.speed_spec() == speed,
            c.scale_spec() == FX_ONE,
            c.aspect_spec() == aspect_of(width, height),
    {
        Camera { x: 0, y: 0, speed, aspect_milli: Camera::compute_aspect(width, height), scale: FX_ONE }
    }

    fn compute_aspect(width: u32, height: u32) -> (a: u64)
        requires
            height >= 1,
        ensures
            a == aspect_of(width, height),
            a <= ASPECT_LIMIT,
    {
        let a = (width as u64 * 1000) / (height as u64);
        if a > ASPECT_LIMIT {
            ASPECT_LIMIT
        } else {
            a
        }
    }

    /// Adopts the aspect ratio of a resized surface; nothing else moves.
    pub fn set_aspect(&mut self, width: u32, height: u32)
        requires
            old(self).wf(),
            height >= 1,
        ensures
            final(self).wf(),
            final(self).aspect_spec() == aspect_of(width, height),
            final(self).x_spec() == old(self).x_spec(),
            final(self).y_spec() == old(self).y_spec(),
            final(self).speed_spec() == old(self).speed_spec(),
            final(self).scale_spec() == old(self).scale_spec(),
    {
        self.aspect_milli = Camera::compute_aspect(width, height);
    }

    /// The camera position, for building the projection.
    pub fn position(&self) -> (r: (i64, i64))
        ensures
            r.0 == self.x_spec(),
            r.1 == self.y_spec(),
    {
        (self.x, self.y)
    }

    /// The zoom, for building the projection.
    pub fn scale(&self) -> (r: i64)
        ensures
            r == self.scale_spec(),
    {
        self.scale
    }

    /// The aspect ratio in thousandths, for building the projection.
    pub fn aspect_milli(&self) -> (r: u64)
        ensures
            r == self.aspect_spec(),
    {
        self.aspect_milli
    }
}

/// Accumulated key state: which movement and zoom keys are currently held.
#[derive(Clone, Copy, PartialEq, Eq, Structural, Debug)]
pub struct CameraController {
    pub is_forward_pressed: bool,
    pub is_backward_pressed: bool,
    pub is_left_pressed: bool,
    pub is_right_pressed: bool,
    pub is_plus_pressed: bool,
    pub is_minus_pressed: bool,
}

/// The controller state after one key event: W/up drive forward, S/down
/// backward, A/left left, D/right right, equal/plus zoom in, minus zoom out;
/// any other key changes nothing.
pub open spec fn controller_after(c: CameraController, key: Key, pressed: bool) -> CameraController {
    match key {
        Key::W | Key::ArrowUp => CameraController { is_forward_pressed: pressed, ..c },
        Key::S | Key::ArrowDown => CameraController { is_backward_pressed: pressed, ..c },
        Key::A | Key::ArrowLeft => CameraController { is_left_pressed: pressed, ..c },
        Key::D | Key::ArrowRight => CameraController { is_right_pressed: pressed, ..c },
        Key::Plus => CameraController { is_plus_pressed: pressed, ..c },
        Key::Minus => CameraController { is_minus_pressed: pressed, ..c },
        Key::Other => c,
    }
}

/// The horizontal movement a controller commands, given one frame's step.
pub open spec fn x_delta(c: CameraController, step: int) -> int {
    (if c.is_right_pressed {
        step
    } else {
        0
    }) - (if c.is_left_pressed {
        step
    } else {
        0
    })
}

/// The vertical movement a controller commands, given one frame's step.
pub open spec fn y_delta(c: CameraController, step: int) -> int {
    (if c.is_forward_pressed {
        step
    } else {
        0
    }) - (if c.is_backward_pressed {
        step
    } else {
        0
    })
}

/// The zoom change a controller commands for one frame.
pub open spec fn scale_delta(c: CameraController) -> int {
    (if c.is_plus_pressed {
        SCALE_STEP as int
    } else {
        0
    }) - (if c.is_minus_pressed {
        SCALE_STEP as int
    } else {
        0
    })
}

impl CameraController {
    /// A controller with no key held.
    pub fn new() -> (c: CameraController)
        ensures
            !c.is_forward_pressed,
            !c.is_backward_pressed,
            !c.is_left_pressed,
            !c.is_right_pressed,
            !c.is_plus_pressed,
            !c.is_minus_pressed,
    {
        CameraController {
            is_forward_pressed: false,
            is_backward_pressed: false,
            is_left_pressed: false,
            is_right_pressed: false,
            is_plus_pressed: false,
            is_minus_pressed: false,
        }
    }

    /// Folds one window event into the key state. Returns whether the event
    /// was one of the keys this controller reads.
    pub fn process_events(&mut self, event: &InputEvent) -> (r: bool)
        ensures
            (*event matches InputEvent::Keyboard { key, pressed } ==> *final(self)
                == controller_after(*old(self), key, pressed) && r == (key != Key::Other)),
            !(*event matches InputEvent::Keyboard { .. }) ==> *final(self) == *old(self) && !r,
    {
        match *event {
            InputEvent::Keyboard { key, pressed } => {
                match key {
                    Key::W | Key::ArrowUp => {
                        self.is_forward_pressed = pressed;
                        true
                    },
                    Key::S | Key::ArrowDown => {
                        self.is_backward_pressed = pressed;
                        true
                    },
                    Key::A | Key::ArrowLeft => {
                        self.is_left_pressed = pressed;
                        true
                    },
                    Key::D | Key::ArrowRight => {
                        self.is_right_pressed = pressed;
                        true
                    },
                    Key::Plus => {
                        self.is_plus_pressed = pressed;
                        true
                    },
                    Key::Minus => {
                        self.is_minus_pressed = pressed;
                        true
                    },
                    Key::Other => false,
                }
            },
            _ => false,
        }
    }

    /// Integrates the held keys into the camera over `dt_ms` milliseconds:
    /// position moves by `speed * dt_ms` per held direction, zoom steps by a
    /// fixed amount per held zoom key, and both saturate at their bounds.
    pub fn update_camera(&self, camera: &mut Camera, dt_ms: i64)
        requires
            old(camera).wf(),
            0 <= dt_ms <= 1_000_000,
        ensures
            final(camera).wf(),
            final(camera).x_spec() == clamp_coord(
                old(camera).x_spec() + x_delta(*self, old(camera).speed_spec() * dt_ms),
            ),
            final(camera).y_spec() == clamp_coord(
                old(camera).y_spec() + y_delta(*self, old(camera).speed_spec() * dt_ms),
            ),
            final(camera).scale_spec() == clamp_scale(
                old(camera).scale_spec() + scale_delta(*self),
            ),
            final(camera).speed_spec() == old(camera).speed_spec(),
            final(camera).aspect_spec() == old(camera).aspect_spec(),
    {
        proof {
            crate::transform::lemma_mul_bound(
                camera.speed as int,
                dt_ms as int,
                1_000_000,
                1_000_000,
            );
        }
        let step = camera.speed * dt_ms;
        let mut dx: i64 = 0;
        let mut dy: i64 = 0;
        if self.is_forward_pressed {
            dy = dy + step;
        }
        if self.is_backward_pressed {
            dy = dy - step;
        }
        if self.is_left_pressed {
            dx = dx - step;
        }
        if self.is_right_pressed {
            dx = dx + step;
        }
        let nx = camera.x + dx;
        camera.x = if nx > COORD_LIMIT {
            COORD_LIMIT
        } else if nx < -COORD_LIMIT {
            -COORD_LIMIT
        } else {
            nx
        };
        let ny = camera.y + dy;
        camera.y = if ny > COORD_LIMIT {
            COORD_LIMIT
        } else if ny < -COORD_LIMIT {
            -COORD_LIMIT
        } else {
            ny
        };
        let mut ds: i64 = 0;
        if self.is_plus_pressed {
            ds = ds + SCALE_STEP;
        }
        if self.is_minus_pressed {
            ds = ds - SCALE_STEP;
        }
        let ns = camera.scale + ds;
        camera.scale = if ns > SCALE_LIMIT {
            SCALE_LIMIT
        } else if ns < -SCALE_LIMIT {
            -SCALE_LIMIT
        } else {
            ns
        };
    }
}

} // verus!
